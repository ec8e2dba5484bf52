//! Plain-text per-field, per-source table: for every field, each source's
//! value tagged with the source's id.

use vstd::prelude::*;
use crate::aggregate::{views, MergedReport};
use crate::model::{SourceData, SourceDataV};
use crate::text::{dec_text, int_text, owned, push_text, sint_text, uint_text};

verus! {

/// Number of fields the table lists.
pub const FIELD_COUNT: usize = 31;

pub open spec fn yes_no(b: bool) -> Seq<char> {
    if b { "Yes"@ } else { "No"@ }
}

pub open spec fn bool_cell(b: Option<bool>) -> Option<Seq<char>> {
    match b {
        Some(x) => Some(yes_no(x)),
        None => None,
    }
}

pub open spec fn u32_cell(v: Option<u32>) -> Option<Seq<char>> {
    match v {
        Some(x) => Some(dec_text(x as nat)),
        None => None,
    }
}

pub open spec fn i64_cell(v: Option<i64>) -> Option<Seq<char>> {
    match v {
        Some(x) => Some(int_text(x as int)),
        None => None,
    }
}

/// Label of the `k`-th listed field.
pub open spec fn label(k: nat) -> Seq<char> {
    if k == 0 {
        "国家"@
    } else if k == 1 {
        "使用类型"@
    } else if k == 2 {
        "公司类型"@
    } else if k == 3 {
        "ASN滥用分"@
    } else if k == 4 {
        "公司滥用分"@
    } else if k == 5 {
        "是否代理"@
    } else if k == 6 {
        "是否VPN"@
    } else if k == 7 {
        "是否数据中心"@
    } else if k == 8 {
        "威胁等级"@
    } else if k == 9 {
        "是否云"@
    } else if k == 10 {
        "是否中继"@
    } else if k == 11 {
        "是否匿名"@
    } else if k == 12 {
        "人类流量"@
    } else if k == 13 {
        "机器人流量"@
    } else if k == 14 {
        "设备分布"@
    } else if k == 15 {
        "VT无害"@
    } else if k == 16 {
        "VT恶意"@
    } else if k == 17 {
        "VT可疑"@
    } else if k == 18 {
        "VT未检出"@
    } else if k == 19 {
        "信任分"@
    } else if k == 20 {
        "欺诈分"@
    } else if k == 21 {
        "AbuseIPDB分"@
    } else if k == 22 {
        "是否Tor"@
    } else if k == 23 {
        "是否托管"@
    } else if k == 24 {
        "是否爬虫"@
    } else if k == 25 {
        "是否移动"@
    } else if k == 26 {
        "是否住宅"@
    } else if k == 27 {
        "是否滥用者"@
    } else if k == 28 {
        "是否Bogon"@
    } else if k == 29 {
        "浏览器分布"@
    } else {
        "系统分布"@
    }
}

/// The `k`-th listed field of a record, as text.
pub open spec fn field_text(d: SourceDataV, k: nat) -> Option<Seq<char>> {
    if k == 0 {
        d.country
    } else if k == 1 {
        d.usage_type
    } else if k == 2 {
        d.company_type
    } else if k == 3 {
        d.asn_abuse_score
    } else if k == 4 {
        d.company_abuse_score
    } else if k == 5 {
        bool_cell(d.is_proxy)
    } else if k == 6 {
        bool_cell(d.is_vpn)
    } else if k == 7 {
        bool_cell(d.is_datacenter)
    } else if k == 8 {
        d.threat_level
    } else if k == 9 {
        bool_cell(d.is_cloud)
    } else if k == 10 {
        bool_cell(d.is_relay)
    } else if k == 11 {
        bool_cell(d.is_anonymous)
    } else if k == 12 {
        d.human_traffic_pct
    } else if k == 13 {
        d.bot_traffic_pct
    } else if k == 14 {
        d.device_dist
    } else if k == 15 {
        u32_cell(d.blacklist_harmless)
    } else if k == 16 {
        u32_cell(d.blacklist_malicious)
    } else if k == 17 {
        u32_cell(d.blacklist_suspicious)
    } else if k == 18 {
        u32_cell(d.blacklist_undetected)
    } else if k == 19 {
        i64_cell(d.trust_score)
    } else if k == 20 {
        i64_cell(d.fraud_score)
    } else if k == 21 {
        i64_cell(d.abuseipdb_score)
    } else if k == 22 {
        bool_cell(d.is_tor)
    } else if k == 23 {
        bool_cell(d.is_hosting)
    } else if k == 24 {
        bool_cell(d.is_crawler)
    } else if k == 25 {
        bool_cell(d.is_mobile)
    } else if k == 26 {
        bool_cell(d.is_residential)
    } else if k == 27 {
        bool_cell(d.is_abuser)
    } else if k == 28 {
        bool_cell(d.is_bogon)
    } else if k == 29 {
        d.browser_dist
    } else {
        d.os_dist
    }
}

/// A record's cell for field `k`: its value and, in brackets, its source.
pub open spec fn cell(d: SourceDataV, k: nat) -> Option<Seq<char>> {
    match field_text(d, k) {
        Some(v) => Some(v + " ["@ + d.source_id + "]"@),
        None => None,
    }
}

/// The cells of field `k` of every record that has it, in order.
pub open spec fn cells(s: Seq<SourceDataV>, k: nat) -> Seq<Seq<char>>
    decreases s.len(),
{
    if s.len() == 0 {
        Seq::empty()
    } else {
        match cell(s.last(), k) {
            Some(c) => cells(s.drop_last(), k).push(c),
            None => cells(s.drop_last(), k),
        }
    }
}

/// Texts joined with two spaces between them.
pub open spec fn joined(parts: Seq<Seq<char>>) -> Seq<char>
    decreases parts.len(),
{
    if parts.len() == 0 {
        Seq::empty()
    } else if parts.len() == 1 {
        parts[0]
    } else {
        joined(parts.drop_last()) + "  "@ + parts.last()
    }
}

/// The line of field `k`: its label and the cells, where any record has it.
pub open spec fn field_line(s: Seq<SourceDataV>, k: nat) -> Seq<char> {
    if cells(s, k).len() == 0 {
        Seq::empty()
    } else {
        label(k) + ": "@ + joined(cells(s, k)) + "\n"@
    }
}

pub open spec fn lines_from(s: Seq<SourceDataV>, k: nat) -> Seq<char>
    decreases FIELD_COUNT - k,
{
    if k >= FIELD_COUNT {
        Seq::empty()
    } else {
        field_line(s, k) + lines_from(s, k + 1)
    }
}

/// The whole table.
pub open spec fn raw_text(s: Seq<SourceDataV>) -> Seq<char> {
    "═══ IP 质量检测(逐源) ═══\n"@ + lines_from(s, 0)
}

fn yes_no_exec(b: bool) -> (r: &'static str)
    ensures
        r@ == yes_no(b),
{
    if b { "Yes" } else { "No" }
}

fn label_exec(k: usize) -> (r: &'static str)
    requires
        k < FIELD_COUNT,
    ensures
        r@ == label(k as nat),
{
    if k == 0 {
        "国家"
    } else if k == 1 {
        "使用类型"
    } else if k == 2 {
        "公司类型"
    } else if k == 3 {
        "ASN滥用分"
    } else if k == 4 {
        "公司滥用分"
    } else if k == 5 {
        "是否代理"
    } else if k == 6 {
        "是否VPN"
    } else if k == 7 {
        "是否数据中心"
    } else if k == 8 {
        "威胁等级"
    } else if k == 9 {
        "是否云"
    } else if k == 10 {
        "是否中继"
    } else if k == 11 {
        "是否匿名"
    } else if k == 12 {
        "人类流量"
    } else if k == 13 {
        "机器人流量"
    } else if k == 14 {
        "设备分布"
    } else if k == 15 {
        "VT无害"
    } else if k == 16 {
        "VT恶意"
    } else if k == 17 {
        "VT可疑"
    } else if k == 18 {
        "VT未检出"
    } else if k == 19 {
        "信任分"
    } else if k == 20 {
        "欺诈分"
    } else if k == 21 {
        "AbuseIPDB分"
    } else if k == 22 {
        "是否Tor"
    } else if k == 23 {
        "是否托管"
    } else if k == 24 {
        "是否爬虫"
    } else if k == 25 {
        "是否移动"
    } else if k == 26 {
        "是否住宅"
    } else if k == 27 {
        "是否滥用者"
    } else if k == 28 {
        "是否Bogon"
    } else if k == 29 {
        "浏览器分布"
    } else {
        "系统分布"
    }
}

fn text_cell(v: &Option<String>) -> (r: Option<String>)
    ensures
        (match r { Some(x) => Some(x@), None => None }) == (match *v { Some(x) => Some(x@), None => None }),
{
    match v {
        Some(x) => Some(x.clone()),
        None => None,
    }
}

fn bool_cell_exec(b: Option<bool>) -> (r: Option<String>)
    ensures
        (match r { Some(x) => Some(x@), None => None }) == bool_cell(b),
{
    match b {
        Some(x) => Some(owned(yes_no_exec(x))),
        None => None,
    }
}

fn u32_cell_exec(v: Option<u32>) -> (r: Option<String>)
    ensures
        (match r { Some(x) => Some(x@), None => None }) == u32_cell(v),
{
    match v {
        Some(x) => Some(uint_text(x as u64)),
        None => None,
    }
}

fn i64_cell_exec(v: Option<i64>) -> (r: Option<String>)
    ensures
        (match r { Some(x) => Some(x@), None => None }) == i64_cell(v),
{
    match v {
        Some(x) => Some(sint_text(x)),
        None => None,
    }
}

fn field_text_exec(d: &SourceData, k: usize) -> (r: Option<String>)
    requires
        k < FIELD_COUNT,
    ensures
        (match r { Some(x) => Some(x@), None => None }) == field_text(d@, k as nat),
{
    if k == 0 {
        text_cell(&d.country)
    } else if k == 1 {
        text_cell(&d.usage_type)
    } else if k == 2 {
        text_cell(&d.company_type)
    } else if k == 3 {
        text_cell(&d.asn_abuse_score)
    } else if k == 4 {
        text_cell(&d.company_abuse_score)
    } else if k == 5 {
        bool_cell_exec(d.is_proxy)
    } else if k == 6 {
        bool_cell_exec(d.is_vpn)
    } else if k == 7 {
        bool_cell_exec(d.is_datacenter)
    } else if k == 8 {
        text_cell(&d.threat_level)
    } else if k == 9 {
        bool_cell_exec(d.is_cloud)
    } else if k == 10 {
        bool_cell_exec(d.is_relay)
    } else if k == 11 {
        bool_cell_exec(d.is_anonymous)
    } else if k == 12 {
        text_cell(&d.human_traffic_pct)
    } else if k == 13 {
        text_cell(&d.bot_traffic_pct)
    } else if k == 14 {
        text_cell(&d.device_dist)
    } else if k == 15 {
        u32_cell_exec(d.blacklist_harmless)
    } else if k == 16 {
        u32_cell_exec(d.blacklist_malicious)
    } else if k == 17 {
        u32_cell_exec(d.blacklist_suspicious)
    } else if k == 18 {
        u32_cell_exec(d.blacklist_undetected)
    } else if k == 19 {
        i64_cell_exec(d.trust_score)
    } else if k == 20 {
        i64_cell_exec(d.fraud_score)
    } else if k == 21 {
        i64_cell_exec(d.abuseipdb_score)
    } else if k == 22 {
        bool_cell_exec(d.is_tor)
    } else if k == 23 {
        bool_cell_exec(d.is_hosting)
    } else if k == 24 {
        bool_cell_exec(d.is_crawler)
    } else if k == 25 {
        bool_cell_exec(d.is_mobile)
    } else if k == 26 {
        bool_cell_exec(d.is_residential)
    } else if k == 27 {
        bool_cell_exec(d.is_abuser)
    } else if k == 28 {
        bool_cell_exec(d.is_bogon)
    } else if k == 29 {
        text_cell(&d.browser_dist)
    } else {
        text_cell(&d.os_dist)
    }
}

fn cells_exec(raw: &Vec<SourceData>, k: usize) -> (r: Vec<String>)
    requires
        k < FIELD_COUNT,
    ensures
        r@.map_values(|x: String| x@) == cells(views(raw@), k as nat),
{
    let ghost s = views(raw@);
    let mut r: Vec<String> = Vec::new();
    let mut i: usize = 0;
    while i < raw.len()
        invariant
            i <= raw@.len(),
            k < FIELD_COUNT,
            s == views(raw@),
            r@.map_values(|x: String| x@) == cells(s.take(i as int), k as nat),
        decreases raw.len() - i,
    {
        assert(s.take(i + 1).drop_last() =~= s.take(i as int));
        assert(s.take(i + 1).last() == raw@[i as int]@);
        let d = &raw[i];
        match field_text_exec(d, k) {
            Some(v) => {
                let mut c = v;
                push_text(&mut c, " [");
                push_text(&mut c, d.source_id.as_str());
                push_text(&mut c, "]");
                let ghost prev = r@;
                r.push(c);
                assert(r@.map_values(|x: String| x@) =~= prev.map_values(|x: String| x@).push(c@));
            },
            None => {},
        }
        i += 1;
    }
    assert(s.take(raw@.len() as int) =~= s);
    r
}

fn push_joined(out: &mut String, parts: &Vec<String>)
    ensures
        final(out)@ == old(out)@ + joined(parts@.map_values(|x: String| x@)),
{
    let ghost start = out@;
    let ghost p = parts@.map_values(|x: String| x@);
    let mut i: usize = 0;
    while i < parts.len()
        invariant
            i <= parts@.len(),
            p == parts@.map_values(|x: String| x@),
            out@ == start + joined(p.take(i as int)),
        decreases parts.len() - i,
    {
        assert(p.take(i + 1).drop_last() =~= p.take(i as int));
        if i > 0 {
            push_text(out, "  ");
        }
        push_text(out, parts[i].as_str());
        proof {
            if i == 0 {
                assert(p.take(1)[0] == p[0]);
                assert(out@ =~= start + joined(p.take(1)));
            } else {
                assert(out@ =~= start + joined(p.take(i + 1)));
            }
        }
        i += 1;
    }
    assert(p.take(parts@.len() as int) =~= p);
}

/// The per-field, per-source table of the report's records: a header line,
/// then for every field that any record has, its label and each record's
/// value tagged `[source id]`, separated by two spaces.
pub fn render(report: &MergedReport) -> (out: String)
    ensures
        out@ == raw_text(views(report.raw@)),
{
    let ghost s = views(report.raw@);
    let mut out = owned("═══ IP 质量检测(逐源) ═══\n");
    let mut k: usize = 0;
    while k < FIELD_COUNT
        invariant
            k <= FIELD_COUNT,
            s == views(report.raw@),
            out@ + lines_from(s, k as nat) == raw_text(s),
        decreases FIELD_COUNT - k,
    {
        let ghost before = out@;
        let parts = cells_exec(&report.raw, k);
        if parts.len() > 0 {
            push_text(&mut out, label_exec(k));
            push_text(&mut out, ": ");
            push_joined(&mut out, &parts);
            push_text(&mut out, "\n");
        }
        assert(out@ =~= before + field_line(s, k as nat));
        assert(before + lines_from(s, k as nat) =~= out@ + lines_from(s, (k + 1) as nat));
        k += 1;
    }
    assert(out@ =~= out@ + lines_from(s, FIELD_COUNT as nat));
    out
}

} // verus!
