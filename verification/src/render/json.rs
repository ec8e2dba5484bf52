//! The machine-readable report: the merged fields, the source statuses and
//! every check's results as one JSON document, printed by `serde_json`.

use vstd::prelude::*;
use crate::aggregate::{MergedReport, SourceStatus};
use crate::json::{
    arr, bool_json, bool_v, decimal_json, decimal_v, entries_v, items_v, json_text, json_v, obj, pretty_json, push_item, put,
    sint_json, sint_v, str_json, str_v, uint_json, uint_v, Json, JsonV,
};
use crate::model::{AiVerdict, IpType};
use crate::probe::dnsbl::DnsblResult;
use crate::probe::mail::{MailResult, PortStatus};
use crate::probe::route::{Carrier, City, Grade, Hop, LineType, RouteResult};
use crate::probe::{ProbeResult, ProbeStatus, UnlockType};
use crate::text::{dec_text, owned, push_text, uint_text};

verus! {

/// A 32-bit count, or `null`.
pub open spec fn u32_v(o: Option<u32>) -> JsonV {
    uint_v(match o { Some(x) => Some(x as u64), None => None })
}

fn u32_json(o: Option<u32>) -> (j: Json)
    ensures
        json_v(j) == u32_v(o),
{
    uint_json(match o { Some(x) => Some(x as u64), None => None })
}

/// A text member value.
fn text_json(s: &str) -> (j: Json)
    ensures
        json_v(j) == JsonV::Str(s@),
{
    Json::Str(owned(s))
}

/// The address type by its lower-case tag, or `null`.
pub open spec fn ip_type_v(o: Option<IpType>) -> JsonV {
    match o {
        Some(t) => JsonV::Str(t.tag_text()),
        None => JsonV::Null,
    }
}

fn ip_type_json(o: Option<IpType>) -> (j: Json)
    ensures
        json_v(j) == ip_type_v(o),
{
    match o {
        Some(t) => text_json(t.tag()),
        None => Json::Null,
    }
}

/// The AI verdict as `{label, confidence, reasoning}`, or `null`.
pub open spec fn ai_v(o: Option<AiVerdict>) -> JsonV {
    match o {
        Some(v) => JsonV::Obj(seq![
            ("label"@, JsonV::Str(v.label@)), ("confidence"@, sint_v(Some(v.confidence))),
            ("reasoning"@, JsonV::Str(v.reasoning@))
        ]),
        None => JsonV::Null,
    }
}

fn ai_json(o: &Option<AiVerdict>) -> (j: Json)
    ensures
        json_v(j) == ai_v(*o),
{
    match o {
        Some(v) => {
            let mut es: Vec<(String, Json)> = Vec::new();
            put(&mut es, "label", Json::Str(v.label.clone()));
            put(&mut es, "confidence", sint_json(Some(v.confidence)));
            put(&mut es, "reasoning", Json::Str(v.reasoning.clone()));
            assert(entries_v(es@) =~= ai_v(*o)->Obj_0);
            obj(es)
        },
        None => Json::Null,
    }
}

/// Lower-case tags of the enums, as their serde names.
pub open spec fn status_tag(s: ProbeStatus) -> Seq<char> {
    match s {
        ProbeStatus::Unlocked => "unlocked"@,
        ProbeStatus::Restricted => "restricted"@,
        ProbeStatus::Blocked => "blocked"@,
        ProbeStatus::Unknown => "unknown"@,
    }
}

fn status_tag_exec(s: ProbeStatus) -> (r: &'static str)
    ensures
        r@ == status_tag(s),
{
    match s {
        ProbeStatus::Unlocked => "unlocked",
        ProbeStatus::Restricted => "restricted",
        ProbeStatus::Blocked => "blocked",
        ProbeStatus::Unknown => "unknown",
    }
}

pub open spec fn type_tag(t: UnlockType) -> Seq<char> {
    match t {
        UnlockType::Native => "native"@,
        UnlockType::Dns => "dns"@,
        UnlockType::Unknown => "unknown"@,
    }
}

fn type_tag_exec(t: UnlockType) -> (r: &'static str)
    ensures
        r@ == type_tag(t),
{
    match t {
        UnlockType::Native => "native",
        UnlockType::Dns => "dns",
        UnlockType::Unknown => "unknown",
    }
}

pub open spec fn carrier_tag(c: Carrier) -> Seq<char> {
    match c {
        Carrier::Telecom => "telecom"@,
        Carrier::Unicom => "unicom"@,
        Carrier::Mobile => "mobile"@,
    }
}

fn carrier_tag_exec(c: Carrier) -> (r: &'static str)
    ensures
        r@ == carrier_tag(c),
{
    match c {
        Carrier::Telecom => "telecom",
        Carrier::Unicom => "unicom",
        Carrier::Mobile => "mobile",
    }
}

pub open spec fn city_tag(c: City) -> Seq<char> {
    match c {
        City::Beijing => "beijing"@,
        City::Shanghai => "shanghai"@,
        City::Guangzhou => "guangzhou"@,
        City::Chengdu => "chengdu"@,
    }
}

fn city_tag_exec(c: City) -> (r: &'static str)
    ensures
        r@ == city_tag(c),
{
    match c {
        City::Beijing => "beijing",
        City::Shanghai => "shanghai",
        City::Guangzhou => "guangzhou",
        City::Chengdu => "chengdu",
    }
}

pub open spec fn line_tag(l: LineType) -> Seq<char> {
    match l {
        LineType::Cn2gia => "cn2gia"@,
        LineType::Cn2gt => "cn2gt"@,
        LineType::Cn2 => "cn2"@,
        LineType::Chinanet163 => "chinanet163"@,
        LineType::Cuii9929 => "cuii9929"@,
        LineType::Cug => "cug"@,
        LineType::China169 => "china169"@,
        LineType::Cmin2 => "cmin2"@,
        LineType::Cmi => "cmi"@,
        LineType::Cmnet => "cmnet"@,
        LineType::Unknown => "unknown"@,
    }
}

fn line_tag_exec(l: LineType) -> (r: &'static str)
    ensures
        r@ == line_tag(l),
{
    match l {
        LineType::Cn2gia => "cn2gia",
        LineType::Cn2gt => "cn2gt",
        LineType::Cn2 => "cn2",
        LineType::Chinanet163 => "chinanet163",
        LineType::Cuii9929 => "cuii9929",
        LineType::Cug => "cug",
        LineType::China169 => "china169",
        LineType::Cmin2 => "cmin2",
        LineType::Cmi => "cmi",
        LineType::Cmnet => "cmnet",
        LineType::Unknown => "unknown",
    }
}

pub open spec fn grade_tag(g: Grade) -> Seq<char> {
    match g {
        Grade::Boutique => "boutique"@,
        Grade::Premium => "premium"@,
        Grade::Standard => "standard"@,
        Grade::Unknown => "unknown"@,
    }
}

fn grade_tag_exec(g: Grade) -> (r: &'static str)
    ensures
        r@ == grade_tag(g),
{
    match g {
        Grade::Boutique => "boutique",
        Grade::Premium => "premium",
        Grade::Standard => "standard",
        Grade::Unknown => "unknown",
    }
}

/// A source's status as `{id, ok, error}`.
pub open spec fn source_v(s: SourceStatus) -> JsonV {
    JsonV::Obj(seq![("id"@, JsonV::Str(s.id@)), ("ok"@, JsonV::Bool(s.ok)), ("error"@, str_v(s.error))])
}

fn source_json(s: &SourceStatus) -> (j: Json)
    ensures
        json_v(j) == source_v(*s),
{
    let mut es: Vec<(String, Json)> = Vec::new();
    put(&mut es, "id", Json::Str(s.id.clone()));
    put(&mut es, "ok", Json::Bool(s.ok));
    put(&mut es, "error", str_json(&s.error));
    assert(entries_v(es@) =~= source_v(*s)->Obj_0);
    obj(es)
}

/// A probe's result as `{name, status, region, unlock_type}`.
pub open spec fn probe_v(p: ProbeResult) -> JsonV {
    JsonV::Obj(seq![
        ("name"@, JsonV::Str(p.name@)), ("status"@, JsonV::Str(status_tag(p.status))), ("region"@, str_v(p.region)),
        ("unlock_type"@, JsonV::Str(type_tag(p.unlock_type)))
    ])
}

fn probe_json(p: &ProbeResult) -> (j: Json)
    ensures
        json_v(j) == probe_v(*p),
{
    let mut es: Vec<(String, Json)> = Vec::new();
    put(&mut es, "name", Json::Str(p.name.clone()));
    put(&mut es, "status", text_json(status_tag_exec(p.status)));
    put(&mut es, "region", str_json(&p.region));
    put(&mut es, "unlock_type", text_json(type_tag_exec(p.unlock_type)));
    assert(entries_v(es@) =~= probe_v(*p)->Obj_0);
    obj(es)
}

/// A port as `{port, open}`.
pub open spec fn port_v(p: PortStatus) -> JsonV {
    JsonV::Obj(seq![("port"@, uint_v(Some(p.port as u64))), ("open"@, JsonV::Bool(p.open))])
}

/// A provider as `{provider, host, ports}`.
pub open spec fn mail_v(m: MailResult) -> JsonV {
    JsonV::Obj(seq![
        ("provider"@, JsonV::Str(m.provider@)), ("host"@, JsonV::Str(m.host@)),
        ("ports"@, JsonV::Arr(m.ports@.map_values(|p: PortStatus| port_v(p))))
    ])
}

fn mail_json(m: &MailResult) -> (j: Json)
    ensures
        json_v(j) == mail_v(*m),
{
    let mut ports: Vec<Json> = Vec::new();
    let mut i: usize = 0;
    while i < m.ports.len()
        invariant
            i <= m.ports@.len(),
            items_v(ports@) == m.ports@.take(i as int).map_values(|p: PortStatus| port_v(p)),
        decreases m.ports.len() - i,
    {
        let p = m.ports[i];
        let mut es: Vec<(String, Json)> = Vec::new();
        put(&mut es, "port", uint_json(Some(p.port as u64)));
        put(&mut es, "open", Json::Bool(p.open));
        assert(entries_v(es@) =~= port_v(p)->Obj_0);
        push_item(&mut ports, obj(es));
        assert(m.ports@.take(i + 1).map_values(|p: PortStatus| port_v(p))
            =~= m.ports@.take(i as int).map_values(|p: PortStatus| port_v(p)).push(port_v(m.ports@[i as int])));
        i += 1;
    }
    assert(m.ports@.take(m.ports@.len() as int) =~= m.ports@);
    let mut es: Vec<(String, Json)> = Vec::new();
    put(&mut es, "provider", Json::Str(m.provider.clone()));
    put(&mut es, "host", Json::Str(m.host.clone()));
    put(&mut es, "ports", arr(ports));
    assert(entries_v(es@) =~= mail_v(*m)->Obj_0);
    obj(es)
}

/// Three digits, zero-padded.
pub open spec fn three_digits(x: nat) -> Seq<char> {
    if x < 10 { "00"@ + dec_text(x) } else if x < 100 { "0"@ + dec_text(x) } else { dec_text(x) }
}

/// Microseconds as milliseconds in decimal text, to the microsecond.
pub open spec fn ms_text(us: u64) -> Seq<char> {
    dec_text((us / 1000) as nat) + "."@ + three_digits((us % 1000) as nat)
}

/// A round-trip time in milliseconds, or `null`.
pub open spec fn rtt_v(o: Option<u64>) -> JsonV {
    match o {
        Some(us) => JsonV::Num(ms_text(us)),
        None => JsonV::Null,
    }
}

fn rtt_json(o: Option<u64>) -> (j: Json)
    ensures
        json_v(j) == rtt_v(o),
{
    match o {
        Some(us) => {
            let mut t = uint_text(us / 1000);
            push_text(&mut t, ".");
            let f = us % 1000;
            if f < 10 {
                push_text(&mut t, "00");
            } else if f < 100 {
                push_text(&mut t, "0");
            }
            let d = uint_text(f);
            push_text(&mut t, d.as_str());
            assert(t@ =~= ms_text(us));
            decimal_json(&Some(t))
        },
        None => Json::Null,
    }
}

/// A hop as `{ttl, addr, rtt_ms, asn, as_org, country, city}`.
pub open spec fn hop_v(h: Hop) -> JsonV {
    JsonV::Obj(seq![
        ("ttl"@, uint_v(Some(h.ttl as u64))),
        ("addr"@, match h.addr { Some(a) => JsonV::Str(a.text()), None => JsonV::Null }),
        ("rtt_ms"@, rtt_v(h.rtt_us)), ("asn"@, u32_v(h.asn)), ("as_org"@, str_v(h.as_org)),
        ("country"@, str_v(h.country)), ("city"@, str_v(h.city))
    ])
}

fn hop_json(h: &Hop) -> (j: Json)
    ensures
        json_v(j) == hop_v(*h),
{
    let mut es: Vec<(String, Json)> = Vec::new();
    put(&mut es, "ttl", uint_json(Some(h.ttl as u64)));
    let addr = match &h.addr {
        Some(a) => Json::Str(a.to_text()),
        None => Json::Null,
    };
    put(&mut es, "addr", addr);
    put(&mut es, "rtt_ms", rtt_json(h.rtt_us));
    put(&mut es, "asn", u32_json(h.asn));
    put(&mut es, "as_org", str_json(&h.as_org));
    put(&mut es, "country", str_json(&h.country));
    put(&mut es, "city", str_json(&h.city));
    assert(entries_v(es@) =~= hop_v(*h)->Obj_0);
    obj(es)
}

/// A route as `{carrier, city, target_name, target, hops, line, grade,
/// entry, degraded}`.
pub open spec fn route_v(r: RouteResult) -> JsonV {
    JsonV::Obj(seq![
        ("carrier"@, JsonV::Str(carrier_tag(r.carrier))), ("city"@, JsonV::Str(city_tag(r.city))),
        ("target_name"@, JsonV::Str(r.target_name@)), ("target"@, JsonV::Str(r.target.text())),
        ("hops"@, JsonV::Arr(r.hops@.map_values(|h: Hop| hop_v(h)))), ("line"@, JsonV::Str(line_tag(r.line))),
        ("grade"@, JsonV::Str(grade_tag(r.grade))), ("entry"@, JsonV::Str(line_tag(r.entry))),
        ("degraded"@, str_v(r.degraded))
    ])
}

fn route_json(r: &RouteResult) -> (j: Json)
    ensures
        json_v(j) == route_v(*r),
{
    let mut hops: Vec<Json> = Vec::new();
    let mut i: usize = 0;
    while i < r.hops.len()
        invariant
            i <= r.hops@.len(),
            items_v(hops@) == r.hops@.take(i as int).map_values(|h: Hop| hop_v(h)),
        decreases r.hops.len() - i,
    {
        push_item(&mut hops, hop_json(&r.hops[i]));
        assert(r.hops@.take(i + 1).map_values(|h: Hop| hop_v(h))
            =~= r.hops@.take(i as int).map_values(|h: Hop| hop_v(h)).push(hop_v(r.hops@[i as int])));
        i += 1;
    }
    assert(r.hops@.take(r.hops@.len() as int) =~= r.hops@);
    let mut es: Vec<(String, Json)> = Vec::new();
    put(&mut es, "carrier", text_json(carrier_tag_exec(r.carrier)));
    put(&mut es, "city", text_json(city_tag_exec(r.city)));
    put(&mut es, "target_name", Json::Str(r.target_name.clone()));
    put(&mut es, "target", Json::Str(r.target.to_text()));
    put(&mut es, "hops", arr(hops));
    put(&mut es, "line", text_json(line_tag_exec(r.line)));
    put(&mut es, "grade", text_json(grade_tag_exec(r.grade)));
    put(&mut es, "entry", text_json(line_tag_exec(r.entry)));
    put(&mut es, "degraded", str_json(&r.degraded));
    assert(entries_v(es@) =~= route_v(*r)->Obj_0);
    obj(es)
}

/// A blocklist result as `{list, listed}`.
pub open spec fn dnsbl_v(d: DnsblResult) -> JsonV {
    JsonV::Obj(seq![("list"@, JsonV::Str(d.list@)), ("listed"@, JsonV::Bool(d.listed))])
}

fn dnsbl_json(d: &DnsblResult) -> (j: Json)
    ensures
        json_v(j) == dnsbl_v(*d),
{
    let mut es: Vec<(String, Json)> = Vec::new();
    put(&mut es, "list", Json::Str(d.list.clone()));
    put(&mut es, "listed", Json::Bool(d.listed));
    assert(entries_v(es@) =~= dnsbl_v(*d)->Obj_0);
    obj(es)
}

/// Address, network and place members.
pub open spec fn ident_members(r: MergedReport) -> Seq<(Seq<char>, JsonV)> {
    seq![
        ("ip"@, str_v(r.ip)),
        ("asn"@, u32_v(r.asn)),
        ("as_org"@, str_v(r.as_org)),
        ("isp"@, str_v(r.isp)),
        ("country"@, str_v(r.country)),
        ("region"@, str_v(r.region)),
        ("city"@, str_v(r.city)),
        ("lat"@, decimal_v(r.lat)),
        ("lon"@, decimal_v(r.lon)),
        ("timezone"@, str_v(r.timezone)),
        ("rdns"@, str_v(r.rdns)),
        ("ip_type"@, ip_type_v(r.ip_type))
    ]
}

fn put_ident(es: &mut Vec<(String, Json)>, r: &MergedReport)
    ensures
        entries_v(final(es)@) == entries_v(old(es)@) + ident_members(*r),
{
    let ghost before = entries_v(es@);
    put(es, "ip", str_json(&r.ip));
    put(es, "asn", u32_json(r.asn));
    put(es, "as_org", str_json(&r.as_org));
    put(es, "isp", str_json(&r.isp));
    put(es, "country", str_json(&r.country));
    put(es, "region", str_json(&r.region));
    put(es, "city", str_json(&r.city));
    put(es, "lat", decimal_json(&r.lat));
    put(es, "lon", decimal_json(&r.lon));
    put(es, "timezone", str_json(&r.timezone));
    put(es, "rdns", str_json(&r.rdns));
    put(es, "ip_type", ip_type_json(r.ip_type));
    assert(entries_v(es@) =~= before + ident_members(*r));
}

/// Flag, score and AI-verdict members.
pub open spec fn flags_members(r: MergedReport) -> Seq<(Seq<char>, JsonV)> {
    seq![
        ("is_proxy"@, bool_v(r.is_proxy)),
        ("is_hosting"@, bool_v(r.is_hosting)),
        ("is_vpn"@, bool_v(r.is_vpn)),
        ("is_tor"@, bool_v(r.is_tor)),
        ("is_abuser"@, bool_v(r.is_abuser)),
        ("is_crawler"@, bool_v(r.is_crawler)),
        ("is_mobile"@, bool_v(r.is_mobile)),
        ("is_residential"@, bool_v(r.is_residential)),
        ("trust_score"@, sint_v(r.trust_score)),
        ("risk_score"@, sint_v(r.risk_score)),
        ("abuser_score"@, str_v(r.abuser_score)),
        ("rep_threat"@, sint_v(r.rep_threat)),
        ("ai_verdict"@, ai_v(r.ai_verdict))
    ]
}

fn put_flags(es: &mut Vec<(String, Json)>, r: &MergedReport)
    ensures
        entries_v(final(es)@) == entries_v(old(es)@) + flags_members(*r),
{
    let ghost before = entries_v(es@);
    put(es, "is_proxy", bool_json(r.is_proxy));
    put(es, "is_hosting", bool_json(r.is_hosting));
    put(es, "is_vpn", bool_json(r.is_vpn));
    put(es, "is_tor", bool_json(r.is_tor));
    put(es, "is_abuser", bool_json(r.is_abuser));
    put(es, "is_crawler", bool_json(r.is_crawler));
    put(es, "is_mobile", bool_json(r.is_mobile));
    put(es, "is_residential", bool_json(r.is_residential));
    put(es, "trust_score", sint_json(r.trust_score));
    put(es, "risk_score", sint_json(r.risk_score));
    put(es, "abuser_score", str_json(&r.abuser_score));
    put(es, "rep_threat", sint_json(r.rep_threat));
    put(es, "ai_verdict", ai_json(&r.ai_verdict));
    assert(entries_v(es@) =~= before + flags_members(*r));
}

/// Fraud, usage, abuse, traffic and distribution members.
pub open spec fn scores_members(r: MergedReport) -> Seq<(Seq<char>, JsonV)> {
    seq![
        ("fraud_score"@, sint_v(r.fraud_score)),
        ("abuseipdb_score"@, sint_v(r.abuseipdb_score)),
        ("ipqs_score"@, sint_v(r.ipqs_score)),
        ("usage_type"@, str_v(r.usage_type)),
        ("company_type"@, str_v(r.company_type)),
        ("asn_abuse_score"@, decimal_v(r.asn_abuse_score)),
        ("company_abuse_score"@, decimal_v(r.company_abuse_score)),
        ("is_datacenter"@, bool_v(r.is_datacenter)),
        ("threat_level"@, str_v(r.threat_level)),
        ("human_traffic_pct"@, decimal_v(r.human_traffic_pct)),
        ("bot_traffic_pct"@, decimal_v(r.bot_traffic_pct)),
        ("browser_dist"@, str_v(r.browser_dist)),
        ("device_dist"@, str_v(r.device_dist)),
        ("os_dist"@, str_v(r.os_dist))
    ]
}

fn put_scores(es: &mut Vec<(String, Json)>, r: &MergedReport)
    ensures
        entries_v(final(es)@) == entries_v(old(es)@) + scores_members(*r),
{
    let ghost before = entries_v(es@);
    put(es, "fraud_score", sint_json(r.fraud_score));
    put(es, "abuseipdb_score", sint_json(r.abuseipdb_score));
    put(es, "ipqs_score", sint_json(r.ipqs_score));
    put(es, "usage_type", str_json(&r.usage_type));
    put(es, "company_type", str_json(&r.company_type));
    put(es, "asn_abuse_score", decimal_json(&r.asn_abuse_score));
    put(es, "company_abuse_score", decimal_json(&r.company_abuse_score));
    put(es, "is_datacenter", bool_json(r.is_datacenter));
    put(es, "threat_level", str_json(&r.threat_level));
    put(es, "human_traffic_pct", decimal_json(&r.human_traffic_pct));
    put(es, "bot_traffic_pct", decimal_json(&r.bot_traffic_pct));
    put(es, "browser_dist", str_json(&r.browser_dist));
    put(es, "device_dist", str_json(&r.device_dist));
    put(es, "os_dist", str_json(&r.os_dist));
    assert(entries_v(es@) =~= before + scores_members(*r));
}

/// Cloud, relay, anonymity, bogon and blocklist-count members.
pub open spec fn marks_members(r: MergedReport) -> Seq<(Seq<char>, JsonV)> {
    seq![
        ("is_cloud"@, bool_v(r.is_cloud)),
        ("is_relay"@, bool_v(r.is_relay)),
        ("is_anonymous"@, bool_v(r.is_anonymous)),
        ("is_bogon"@, bool_v(r.is_bogon)),
        ("blacklist_harmless"@, u32_v(r.blacklist_harmless)),
        ("blacklist_malicious"@, u32_v(r.blacklist_malicious)),
        ("blacklist_suspicious"@, u32_v(r.blacklist_suspicious)),
        ("blacklist_undetected"@, u32_v(r.blacklist_undetected))
    ]
}

fn put_marks(es: &mut Vec<(String, Json)>, r: &MergedReport)
    ensures
        entries_v(final(es)@) == entries_v(old(es)@) + marks_members(*r),
{
    let ghost before = entries_v(es@);
    put(es, "is_cloud", bool_json(r.is_cloud));
    put(es, "is_relay", bool_json(r.is_relay));
    put(es, "is_anonymous", bool_json(r.is_anonymous));
    put(es, "is_bogon", bool_json(r.is_bogon));
    put(es, "blacklist_harmless", u32_json(r.blacklist_harmless));
    put(es, "blacklist_malicious", u32_json(r.blacklist_malicious));
    put(es, "blacklist_suspicious", u32_json(r.blacklist_suspicious));
    put(es, "blacklist_undetected", u32_json(r.blacklist_undetected));
    assert(entries_v(es@) =~= before + marks_members(*r));
}

/// The `sources` array.
fn source_array(sources: &Vec<SourceStatus>) -> (j: Json)
    ensures
        json_v(j) == JsonV::Arr(sources@.map_values(|x: SourceStatus| source_v(x))),
{
    let mut v: Vec<Json> = Vec::new();
    let mut i: usize = 0;
    while i < sources.len()
        invariant
            i <= sources@.len(),
            items_v(v@) == sources@.take(i as int).map_values(|x: SourceStatus| source_v(x)),
        decreases sources.len() - i,
    {
        push_item(&mut v, source_json(&sources[i]));
        assert(sources@.take(i + 1).map_values(|x: SourceStatus| source_v(x))
            =~= sources@.take(i as int).map_values(|x: SourceStatus| source_v(x)).push(source_v(sources@[i as int])));
        i += 1;
    }
    assert(sources@.take(sources@.len() as int) =~= sources@);
    arr(v)
}

/// The `probes` array.
fn probe_array(probes: &[ProbeResult]) -> (j: Json)
    ensures
        json_v(j) == JsonV::Arr(probes@.map_values(|x: ProbeResult| probe_v(x))),
{
    let mut v: Vec<Json> = Vec::new();
    let mut i: usize = 0;
    while i < probes.len()
        invariant
            i <= probes@.len(),
            items_v(v@) == probes@.take(i as int).map_values(|x: ProbeResult| probe_v(x)),
        decreases probes.len() - i,
    {
        push_item(&mut v, probe_json(&probes[i]));
        assert(probes@.take(i + 1).map_values(|x: ProbeResult| probe_v(x))
            =~= probes@.take(i as int).map_values(|x: ProbeResult| probe_v(x)).push(probe_v(probes@[i as int])));
        i += 1;
    }
    assert(probes@.take(probes@.len() as int) =~= probes@);
    arr(v)
}

/// The `mail` array.
fn mail_array(mail: &[MailResult]) -> (j: Json)
    ensures
        json_v(j) == JsonV::Arr(mail@.map_values(|x: MailResult| mail_v(x))),
{
    let mut v: Vec<Json> = Vec::new();
    let mut i: usize = 0;
    while i < mail.len()
        invariant
            i <= mail@.len(),
            items_v(v@) == mail@.take(i as int).map_values(|x: MailResult| mail_v(x)),
        decreases mail.len() - i,
    {
        push_item(&mut v, mail_json(&mail[i]));
        assert(mail@.take(i + 1).map_values(|x: MailResult| mail_v(x))
            =~= mail@.take(i as int).map_values(|x: MailResult| mail_v(x)).push(mail_v(mail@[i as int])));
        i += 1;
    }
    assert(mail@.take(mail@.len() as int) =~= mail@);
    arr(v)
}

/// The `route` array.
fn route_array(routes: &[RouteResult]) -> (j: Json)
    ensures
        json_v(j) == JsonV::Arr(routes@.map_values(|x: RouteResult| route_v(x))),
{
    let mut v: Vec<Json> = Vec::new();
    let mut i: usize = 0;
    while i < routes.len()
        invariant
            i <= routes@.len(),
            items_v(v@) == routes@.take(i as int).map_values(|x: RouteResult| route_v(x)),
        decreases routes.len() - i,
    {
        push_item(&mut v, route_json(&routes[i]));
        assert(routes@.take(i + 1).map_values(|x: RouteResult| route_v(x))
            =~= routes@.take(i as int).map_values(|x: RouteResult| route_v(x)).push(route_v(routes@[i as int])));
        i += 1;
    }
    assert(routes@.take(routes@.len() as int) =~= routes@);
    arr(v)
}

/// The `dnsbl` array.
fn dnsbl_array(dnsbl: &[DnsblResult]) -> (j: Json)
    ensures
        json_v(j) == JsonV::Arr(dnsbl@.map_values(|x: DnsblResult| dnsbl_v(x))),
{
    let mut v: Vec<Json> = Vec::new();
    let mut i: usize = 0;
    while i < dnsbl.len()
        invariant
            i <= dnsbl@.len(),
            items_v(v@) == dnsbl@.take(i as int).map_values(|x: DnsblResult| dnsbl_v(x)),
        decreases dnsbl.len() - i,
    {
        push_item(&mut v, dnsbl_json(&dnsbl[i]));
        assert(dnsbl@.take(i + 1).map_values(|x: DnsblResult| dnsbl_v(x))
            =~= dnsbl@.take(i as int).map_values(|x: DnsblResult| dnsbl_v(x)).push(dnsbl_v(dnsbl@[i as int])));
        i += 1;
    }
    assert(dnsbl@.take(dnsbl@.len() as int) =~= dnsbl@);
    arr(v)
}

/// The members after the report's fields: the source statuses, then the
/// results of the streaming, mail, route and blocklist checks.
pub open spec fn result_members(
    r: MergedReport,
    probes: Seq<ProbeResult>,
    mail: Seq<MailResult>,
    routes: Seq<RouteResult>,
    dnsbl: Seq<DnsblResult>,
) -> Seq<(Seq<char>, JsonV)> {
    seq![
        ("sources"@, JsonV::Arr(r.sources@.map_values(|x: SourceStatus| source_v(x)))),
        ("probes"@, JsonV::Arr(probes.map_values(|x: ProbeResult| probe_v(x)))),
        ("mail"@, JsonV::Arr(mail.map_values(|x: MailResult| mail_v(x)))),
        ("route"@, JsonV::Arr(routes.map_values(|x: RouteResult| route_v(x)))),
        ("dnsbl"@, JsonV::Arr(dnsbl.map_values(|x: DnsblResult| dnsbl_v(x))))
    ]
}

/// The report document: one object with the merged fields, in the order
/// address and place, flags and scores, fraud and traffic, marks and
/// blocklist counts, then the statuses and results.
pub open spec fn report_json(
    r: MergedReport,
    probes: Seq<ProbeResult>,
    mail: Seq<MailResult>,
    routes: Seq<RouteResult>,
    dnsbl: Seq<DnsblResult>,
) -> JsonV {
    JsonV::Obj(ident_members(r) + flags_members(r) + scores_members(r) + marks_members(r)
        + result_members(r, probes, mail, routes, dnsbl))
}

/// The report document (see `report_json`).
pub fn report_document(
    r: &MergedReport,
    probes: &[ProbeResult],
    mail: &[MailResult],
    routes: &[RouteResult],
    dnsbl: &[DnsblResult],
) -> (j: Json)
    ensures
        json_v(j) == report_json(*r, probes@, mail@, routes@, dnsbl@),
{
    let mut es: Vec<(String, Json)> = Vec::new();
    put_ident(&mut es, r);
    put_flags(&mut es, r);
    put_scores(&mut es, r);
    put_marks(&mut es, r);
    let ghost before = entries_v(es@);
    put(&mut es, "sources", source_array(&r.sources));
    put(&mut es, "probes", probe_array(probes));
    put(&mut es, "mail", mail_array(mail));
    put(&mut es, "route", route_array(routes));
    put(&mut es, "dnsbl", dnsbl_array(dnsbl));
    assert(entries_v(es@) =~= before + result_members(*r, probes@, mail@, routes@, dnsbl@));
    assert(entries_v(es@) =~= report_json(*r, probes@, mail@, routes@, dnsbl@)->Obj_0);
    obj(es)
}

/// The `--json` output: the report document as `serde_json` pretty-prints it.
pub fn to_json(
    r: &MergedReport,
    probes: &[ProbeResult],
    mail: &[MailResult],
    routes: &[RouteResult],
    dnsbl: &[DnsblResult],
) -> (s: String)
    ensures
        s@ == json_text(report_json(*r, probes@, mail@, routes@, dnsbl@)),
{
    let doc = report_document(r, probes, mail, routes, dnsbl);
    pretty_json(&doc)
}

} // verus!
