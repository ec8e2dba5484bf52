//! The run of the return-route check, as far as it decides: the result of
//! one trace, the addresses to look up, and the geo service's batch answer.
//! Sending and receiving packets and the HTTP exchange happen outside this
//! library.

use vstd::prelude::*;
use crate::json::{Json, field, get_text, parse_json, parsed_json, text_of, text_val};
use crate::model::opt_text;
use crate::net::{Ipv4Addr, parse_v4_spec};
use crate::probe::route::{public_spec, is_public_v4, Carrier, City, Geo, Grade, Hop, LineType, RouteResult};
use crate::sources::ipapi::{split_as, split_as_spec};
use crate::text::{chars_of, is_text, owned};

verus! {

/// The geo service's batch endpoint, asking for status, query, AS, country
/// and city.
pub const BATCH_URL: &'static str = "http://ip-api.com/batch?fields=status,query,as,country,city";

/// The result of one trace before annotation: its hops, or the reason it
/// could not run (then no hops).
pub fn route_result(
    carrier: Carrier,
    city: City,
    name: &str,
    target: Ipv4Addr,
    outcome: Result<Vec<Hop>, String>,
) -> (r: RouteResult)
    ensures
        r.carrier == carrier,
        r.city == city,
        r.target_name@ == name@,
        r.target == target,
        r.line == LineType::Unknown,
        r.grade == Grade::Unknown,
        r.entry == LineType::Unknown,
        match outcome {
            Ok(h) => r.hops@ == h@ && r.degraded is None,
            Err(e) => r.hops@.len() == 0 && (r.degraded matches Some(d) && d@ == e@),
        },
{
    match outcome {
        Ok(hops) => RouteResult {
            carrier,
            city,
            target_name: owned(name),
            target,
            hops,
            line: LineType::Unknown,
            grade: Grade::Unknown,
            entry: LineType::Unknown,
            degraded: None,
        },
        Err(reason) => RouteResult {
            carrier,
            city,
            target_name: owned(name),
            target,
            hops: Vec::new(),
            line: LineType::Unknown,
            grade: Grade::Unknown,
            entry: LineType::Unknown,
            degraded: Some(reason),
        },
    }
}

/// The answering addresses of a list of hops, in order.
pub open spec fn hop_addrs(hs: Seq<Hop>) -> Seq<Ipv4Addr>
    decreases hs.len(),
{
    if hs.len() == 0 {
        Seq::empty()
    } else {
        match hs.last().addr {
            Some(a) => hop_addrs(hs.drop_last()).push(a),
            None => hop_addrs(hs.drop_last()),
        }
    }
}

/// The answering addresses of all routes, route by route.
pub open spec fn route_addrs(rs: Seq<RouteResult>) -> Seq<Ipv4Addr>
    decreases rs.len(),
{
    if rs.len() == 0 { Seq::empty() } else { route_addrs(rs.drop_last()) + hop_addrs(rs.last().hops@) }
}

/// `acc` followed by the public addresses of `s` not yet in it, each once.
pub open spec fn add_public(acc: Seq<Ipv4Addr>, s: Seq<Ipv4Addr>) -> Seq<Ipv4Addr>
    decreases s.len(),
{
    if s.len() == 0 {
        acc
    } else {
        let p = add_public(acc, s.drop_last());
        if public_spec(s.last()) && !p.contains(s.last()) { p.push(s.last()) } else { p }
    }
}

/// The public addresses met on the routes, each once, in the order first met:
/// what the geo service is asked about.
pub open spec fn lookup_addrs(rs: Seq<RouteResult>) -> Seq<Ipv4Addr> {
    add_public(Seq::empty(), route_addrs(rs))
}

proof fn lemma_add_public_concat(acc: Seq<Ipv4Addr>, s: Seq<Ipv4Addr>, t: Seq<Ipv4Addr>)
    ensures
        add_public(acc, s + t) == add_public(add_public(acc, s), t),
    decreases t.len(),
{
    if t.len() > 0 {
        lemma_add_public_concat(acc, s, t.drop_last());
        assert((s + t).drop_last() =~= s + t.drop_last());
    } else {
        assert(s + t =~= s);
    }
}

fn contains_addr(v: &Vec<Ipv4Addr>, a: Ipv4Addr) -> (r: bool)
    ensures
        r == v@.contains(a),
{
    let mut i: usize = 0;
    while i < v.len()
        invariant
            i <= v@.len(),
            forall|j: int| 0 <= j < i ==> v@[j] != a,
        decreases v.len() - i,
    {
        if v[i] == a {
            return true;
        }
        i += 1;
    }
    false
}

fn add_route_addrs(out: &mut Vec<Ipv4Addr>, hops: &Vec<Hop>)
    ensures
        final(out)@ == add_public(old(out)@, hop_addrs(hops@)),
{
    let ghost start = out@;
    let mut j: usize = 0;
    while j < hops.len()
        invariant
            j <= hops@.len(),
            out@ == add_public(start, hop_addrs(hops@.take(j as int))),
        decreases hops.len() - j,
    {
        assert(hops@.take(j + 1).drop_last() =~= hops@.take(j as int));
        match hops[j].addr {
            Some(a) => {
                proof {
                    assert(hop_addrs(hops@.take(j + 1)) == hop_addrs(hops@.take(j as int)).push(a));
                    assert(hop_addrs(hops@.take(j + 1)).drop_last() =~= hop_addrs(hops@.take(j as int)));
                }
                if is_public_v4(a) && !contains_addr(out, a) {
                    out.push(a);
                }
            },
            None => {},
        }
        j += 1;
    }
    assert(hops@.take(hops@.len() as int) =~= hops@);
}

/// The addresses to look up (see `lookup_addrs`).
pub fn public_hop_addrs(routes: &[RouteResult]) -> (r: Vec<Ipv4Addr>)
    ensures
        r@ == lookup_addrs(routes@),
{
    let mut out: Vec<Ipv4Addr> = Vec::new();
    let mut i: usize = 0;
    while i < routes.len()
        invariant
            i <= routes@.len(),
            out@ == add_public(Seq::empty(), route_addrs(routes@.take(i as int))),
        decreases routes.len() - i,
    {
        assert(routes@.take(i + 1).drop_last() =~= routes@.take(i as int));
        proof {
            lemma_add_public_concat(Seq::empty(), route_addrs(routes@.take(i as int)), hop_addrs(routes@[i as int].hops@));
        }
        add_route_addrs(&mut out, &routes[i].hops);
        i += 1;
    }
    assert(routes@.take(routes@.len() as int) =~= routes@);
    out
}

/// The addresses in dotted-quad notation, for the batch request.
pub fn batch_texts(addrs: &[Ipv4Addr]) -> (r: Vec<String>)
    ensures
        r@.map_values(|s: String| s@) == addrs@.map_values(|a: Ipv4Addr| a.text()),
{
    let mut r: Vec<String> = Vec::new();
    let mut i: usize = 0;
    while i < addrs.len()
        invariant
            i <= addrs@.len(),
            r@.map_values(|s: String| s@) == addrs@.take(i as int).map_values(|a: Ipv4Addr| a.text()),
        decreases addrs.len() - i,
    {
        let t = addrs[i].to_text();
        let ghost prev = r@;
        r.push(t);
        assert(r@.map_values(|s: String| s@) =~= prev.map_values(|s: String| s@).push(t@));
        assert(addrs@.take(i + 1).map_values(|a: Ipv4Addr| a.text())
            =~= addrs@.take(i as int).map_values(|a: Ipv4Addr| a.text()).push(addrs@[i as int].text()));
        i += 1;
    }
    assert(addrs@.take(addrs@.len() as int) =~= addrs@);
    r
}

// ───────────────────────── the batch answer ─────────────────────────

/// A batch entry has the shape the reader expects: an object whose status,
/// query, AS, country and city are texts where present.
pub open spec fn item_ok(j: Json) -> bool {
    &&& j is Obj
    &&& text_of(field(j, "status"@)) is Ok
    &&& text_of(field(j, "query"@)) is Ok
    &&& text_of(field(j, "as"@)) is Ok
    &&& text_of(field(j, "country"@)) is Ok
    &&& text_of(field(j, "city"@)) is Ok
}

/// What one successful entry with a valid IPv4 query says.
pub open spec fn item_geo(j: Json) -> Option<(Ipv4Addr, Option<u32>, Option<Seq<char>>, Option<Seq<char>>, Option<Seq<char>>)> {
    if text_val(field(j, "status"@)) == Some("success"@) && (text_val(field(j, "query"@)) matches Some(q)
        && parse_v4_spec(q) is Some) {
        let a = match text_val(field(j, "as"@)) { Some(s) => split_as_spec(s), None => (None, None) };
        Some((parse_v4_spec(text_val(field(j, "query"@))->0)->0, a.0, a.1, text_val(field(j, "country"@)),
            text_val(field(j, "city"@))))
    } else {
        None
    }
}

pub open spec fn geo_view(g: Geo) -> (Ipv4Addr, Option<u32>, Option<Seq<char>>, Option<Seq<char>>, Option<Seq<char>>) {
    (g.ip, g.asn, opt_text(g.as_org), opt_text(g.country), opt_text(g.city))
}

/// What the entries say, the later entries first (a later entry about an
/// address overrides an earlier one on lookup).
pub open spec fn batch_geo(items: Seq<Json>) -> Seq<(Ipv4Addr, Option<u32>, Option<Seq<char>>, Option<Seq<char>>, Option<Seq<char>>)>
    decreases items.len(),
{
    if items.len() == 0 {
        Seq::empty()
    } else {
        let rest = batch_geo(items.drop_first());
        match item_geo(items[0]) {
            Some(g) => rest.push(g),
            None => rest,
        }
    }
}

/// The batch answer's geo entries: none unless the answer is an array of
/// well-shaped entries.
pub open spec fn batch_answer(doc: Json) -> Seq<(Ipv4Addr, Option<u32>, Option<Seq<char>>, Option<Seq<char>>, Option<Seq<char>>)> {
    match doc {
        Json::Arr(items) => if forall|i: int| 0 <= i < items@.len() ==> item_ok(#[trigger] items@[i]) {
            batch_geo(items@)
        } else {
            Seq::empty()
        },
        _ => Seq::empty(),
    }
}

fn item_checks(j: &Json) -> (r: bool)
    ensures
        r == item_ok(*j),
{
    matches!(j, Json::Obj(_)) && get_text(j, "status").is_ok() && get_text(j, "query").is_ok()
        && get_text(j, "as").is_ok() && get_text(j, "country").is_ok() && get_text(j, "city").is_ok()
}

fn item_entry(j: &Json) -> (r: Option<Geo>)
    requires
        item_ok(*j),
    ensures
        match r {
            Some(g) => item_geo(*j) == Some(geo_view(g)),
            None => item_geo(*j) is None,
        },
{
    let status = match get_text(j, "status") { Ok(v) => v, Err(_) => None };
    let ok = match &status {
        Some(s) => {
            let c = chars_of(s.as_str());
            is_text(c.as_slice(), "success")
        },
        None => false,
    };
    if !ok {
        return None;
    }
    let query = match get_text(j, "query") { Ok(v) => v, Err(_) => None };
    let ip = match &query {
        Some(q) => Ipv4Addr::parse(q.as_str()),
        None => None,
    };
    let ip = match ip {
        Some(ip) => ip,
        None => return None,
    };
    let a = match get_text(j, "as") { Ok(v) => v, Err(_) => None };
    let (asn, as_org) = match &a {
        Some(s) => split_as(s.as_str()),
        None => (None, None),
    };
    let country = match get_text(j, "country") { Ok(v) => v, Err(_) => None };
    let city = match get_text(j, "city") { Ok(v) => v, Err(_) => None };
    Some(Geo { ip, asn, as_org, country, city })
}

/// The geo entries of a parsed batch answer (see `batch_answer`).
pub fn geo_from_batch(doc: &Json) -> (r: Vec<Geo>)
    ensures
        r@.map_values(|g: Geo| geo_view(g)) == batch_answer(*doc),
{
    let items = match doc {
        Json::Arr(items) => items,
        _ => return Vec::new(),
    };
    let mut k: usize = 0;
    while k < items.len()
        invariant
            k <= items@.len(),
            forall|j: int| 0 <= j < k ==> item_ok(#[trigger] items@[j]),
            *doc == Json::Arr(*items),
        decreases items.len() - k,
    {
        if !item_checks(&items[k]) {
            assert(!item_ok(items@[k as int]));
            let e: Vec<Geo> = Vec::new();
            assert(e@.map_values(|g: Geo| geo_view(g)) =~= Seq::empty());
            return e;
        }
        k += 1;
    }
    let mut out: Vec<Geo> = Vec::new();
    let mut i: usize = items.len();
    assert(items@.skip(items@.len() as int) =~= Seq::<Json>::empty());
    while i > 0
        invariant
            i <= items@.len(),
            forall|j: int| 0 <= j < items@.len() ==> item_ok(#[trigger] items@[j]),
            out@.map_values(|g: Geo| geo_view(g)) == batch_geo(items@.skip(i as int)),
        decreases i,
    {
        i -= 1;
        assert(items@.skip(i as int).drop_first() =~= items@.skip(i + 1));
        assert(items@.skip(i as int)[0] == items@[i as int]);
        match item_entry(&items[i]) {
            Some(g) => {
                let ghost prev = out@;
                out.push(g);
                assert(out@.map_values(|g: Geo| geo_view(g)) =~= prev.map_values(|g: Geo| geo_view(g)).push(geo_view(g)));
            },
            None => {},
        }
    }
    assert(items@.skip(0) =~= items@);
    out
}

/// The geo entries of a batch answer body (none where it is not JSON).
pub fn parse_batch(body: &str) -> (r: Vec<Geo>)
    ensures
        r@.map_values(|g: Geo| geo_view(g)) == match parsed_json(body@) {
            Ok(doc) => batch_answer(doc),
            Err(_) => Seq::empty(),
        },
{
    match parse_json(body) {
        Ok(doc) => geo_from_batch(&doc),
        Err(_) => {
            let e: Vec<Geo> = Vec::new();
            assert(e@.map_values(|g: Geo| geo_view(g)) =~= Seq::empty());
            e
        },
    }
}

} // verus!
