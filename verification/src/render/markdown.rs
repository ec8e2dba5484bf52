//! Markdown rendering of a merged report: basics, per-source comparison,
//! heuristic verdict and source status.

use vstd::prelude::*;
use vstd::string::*;
use crate::aggregate::{status_views, views, MergedReport, SourceStatus, SourceStatusV};
use crate::heuristics::{conclude, conclusions, texts};
use crate::i18n::Lang;
use crate::model::{opt_text, IpType, SourceData, SourceDataV};
use crate::probe::or_dash;
use crate::text::{dec_text, int_text, push_text, sint_text, uint_text};

verus! {

/// `是`/`yes`, `否`/`no`, or a dash.
pub open spec fn flag_text(b: Option<bool>, lang: Lang) -> Seq<char> {
    match b {
        Some(true) => lang.text("是"@, "yes"@),
        Some(false) => lang.text("否"@, "no"@),
        None => "—"@,
    }
}

/// The kind's name, or a dash.
pub open spec fn type_text(t: Option<IpType>) -> Seq<char> {
    match t {
        Some(k) => k.name_text(),
        None => "—"@,
    }
}

/// The record's first risk score, in the order IPQS, fraud, risk, AbuseIPDB,
/// trust, with its name; a dash where it has none.
pub open spec fn risk_text(d: SourceDataV) -> Seq<char> {
    if let Some(v) = d.ipqs_score {
        "ipqs:"@ + int_text(v as int)
    } else if let Some(v) = d.fraud_score {
        "fraud:"@ + int_text(v as int)
    } else if let Some(v) = d.risk_score {
        "risk:"@ + int_text(v as int)
    } else if let Some(v) = d.abuseipdb_score {
        "abuse:"@ + int_text(v as int)
    } else if let Some(v) = d.trust_score {
        "trust:"@ + int_text(v as int)
    } else {
        "—"@
    }
}

pub open spec fn compare_row(d: SourceDataV, lang: Lang) -> Seq<char> {
    "| "@ + d.source_id + " | "@ + flag_text(d.is_proxy, lang) + " | "@ + flag_text(d.is_vpn, lang) + " | "@
        + flag_text(d.is_tor, lang) + " | "@ + type_text(d.ip_type) + " | "@ + risk_text(d) + " |\n"@
}

pub open spec fn compare_rows(s: Seq<SourceDataV>, lang: Lang) -> Seq<char>
    decreases s.len(),
{
    if s.len() == 0 { Seq::empty() } else { compare_rows(s.drop_last(), lang) + compare_row(s.last(), lang) }
}

pub open spec fn compare_table(s: Seq<SourceDataV>, lang: Lang) -> Seq<char> {
    if s.len() == 0 {
        Seq::empty()
    } else {
        "## "@ + lang.text("各源关键判定对比"@, "Per-source verdicts"@) + "\n\n"@
            + "| "@ + lang.text("源"@, "Source"@) + " | "@ + lang.text("代理"@, "Proxy"@) + " | VPN | Tor | "@
            + lang.text("类型"@, "Type"@) + " | "@ + lang.text("风险分"@, "Risk"@)
            + " |\n|---|---|---|---|---|---|\n"@ + compare_rows(s, lang) + "\n"@
    }
}

pub open spec fn bullet_lines(s: Seq<Seq<char>>) -> Seq<char>
    decreases s.len(),
{
    if s.len() == 0 { Seq::empty() } else { bullet_lines(s.drop_last()) + "- "@ + s.last() + "\n"@ }
}

pub open spec fn status_word(st: SourceStatusV) -> Seq<char> {
    (if st.ok { "✓"@ } else { "✗"@ }) + st.id
}

/// The status words joined by single spaces.
pub open spec fn status_words(s: Seq<SourceStatusV>) -> Seq<char>
    decreases s.len(),
{
    if s.len() == 0 {
        Seq::empty()
    } else if s.len() == 1 {
        status_word(s[0])
    } else {
        status_words(s.drop_last()) + " "@ + status_word(s.last())
    }
}

pub open spec fn asn_cell(asn: Option<u32>) -> Seq<char> {
    match asn {
        Some(a) => "AS"@ + dec_text(a as nat),
        None => "—"@,
    }
}

pub open spec fn basics(f: SourceDataV, lang: Lang) -> Seq<char> {
    basics_of(f.asn, f.as_org, f.country, f.region, f.city, f.rdns, lang)
}

#[verifier::opaque]
pub open spec fn basics_head(lang: Lang) -> Seq<char> {
    "## "@ + lang.text("基础信息"@, "Basics"@) + "\n\n"@
        + "| "@ + lang.text("字段"@, "Field"@) + " | "@ + lang.text("值"@, "Value"@) + " |\n|---|---|\n"@
}

#[verifier::opaque]
pub open spec fn asn_line(asn: Option<u32>, org: Option<Seq<char>>) -> Seq<char> {
    "| ASN | "@ + asn_cell(asn) + " "@ + or_dash(org) + " |\n"@
}

#[verifier::opaque]
pub open spec fn place_lines(
    country: Option<Seq<char>>,
    region: Option<Seq<char>>,
    city: Option<Seq<char>>,
    rdns: Option<Seq<char>>,
    lang: Lang,
) -> Seq<char> {
    "| "@ + lang.text("归属"@, "Location"@) + " | "@ + or_dash(country) + " "@ + or_dash(region) + " "@
        + or_dash(city) + " |\n"@
        + "| rDNS | "@ + or_dash(rdns) + " |\n"@ + "\n"@
}

pub open spec fn basics_of(
    asn: Option<u32>,
    org: Option<Seq<char>>,
    country: Option<Seq<char>>,
    region: Option<Seq<char>>,
    city: Option<Seq<char>>,
    rdns: Option<Seq<char>>,
    lang: Lang,
) -> Seq<char> {
    basics_head(lang) + asn_line(asn, org) + place_lines(country, region, city, rdns, lang)
}

/// The whole Markdown report.
pub open spec fn markdown(
    ip: Seq<char>,
    f: SourceDataV,
    raw: Seq<SourceDataV>,
    st: Seq<SourceStatusV>,
    lang: Lang,
) -> Seq<char> {
    "# "@ + lang.text("IP 全景报告"@, "IP Panorama Report"@) + " "@ + ip + "\n\n"@
        + basics(f, lang)
        + compare_table(raw, lang)
        + "## "@ + lang.text("启发式结论"@, "Heuristic verdict"@) + "\n\n"@ + bullet_lines(conclusions(f, lang)) + "\n"@
        + "> "@ + lang.text("源状态"@, "Source status"@) + " "@ + status_words(st) + "\n"@
}

/// The address text of a report (empty where it has none).
pub open spec fn ip_text(ip: Option<String>) -> Seq<char> {
    match ip {
        Some(s) => s@,
        None => Seq::empty(),
    }
}

fn push_dash(out: &mut String, o: &Option<String>)
    ensures
        final(out)@ == old(out)@ + or_dash(opt_text(*o)),
{
    match o {
        Some(s) => push_text(out, s.as_str()),
        None => push_text(out, "—"),
    }
}

fn push_flag(out: &mut String, b: Option<bool>, lang: Lang)
    ensures
        final(out)@ == old(out)@ + flag_text(b, lang),
{
    match b {
        Some(true) => push_text(out, lang.pick("是", "yes")),
        Some(false) => push_text(out, lang.pick("否", "no")),
        None => push_text(out, "—"),
    }
}

fn push_score(out: &mut String, name: &str, v: i64)
    ensures
        final(out)@ == old(out)@ + name@ + int_text(v as int),
{
    let ghost start = out@;
    push_text(out, name);
    let t = sint_text(v);
    push_text(out, t.as_str());
    assert(out@ =~= start + name@ + int_text(v as int));
}

fn push_risk(out: &mut String, d: &SourceData)
    ensures
        final(out)@ == old(out)@ + risk_text(d@),
{
    if let Some(v) = d.ipqs_score {
        push_score(out, "ipqs:", v);
    } else if let Some(v) = d.fraud_score {
        push_score(out, "fraud:", v);
    } else if let Some(v) = d.risk_score {
        push_score(out, "risk:", v);
    } else if let Some(v) = d.abuseipdb_score {
        push_score(out, "abuse:", v);
    } else if let Some(v) = d.trust_score {
        push_score(out, "trust:", v);
    } else {
        push_text(out, "—");
    }
}

fn push_cells(out: &mut String, id: &String, proxy: Option<bool>, vpn: Option<bool>, tor: Option<bool>, t: Option<IpType>, lang: Lang)
    ensures
        final(out)@ == old(out)@ + "| "@ + id@ + " | "@ + flag_text(proxy, lang) + " | "@ + flag_text(vpn, lang) + " | "@
            + flag_text(tor, lang) + " | "@ + type_text(t) + " | "@,
{
    let ghost start = out@;
    push_text(out, "| ");
    push_text(out, id.as_str());
    push_text(out, " | ");
    push_flag(out, proxy, lang);
    push_text(out, " | ");
    push_flag(out, vpn, lang);
    push_text(out, " | ");
    push_flag(out, tor, lang);
    push_text(out, " | ");
    match t {
        Some(k) => push_text(out, k.name()),
        None => push_text(out, "—"),
    }
    push_text(out, " | ");
    assert(out@ =~= start + "| "@ + id@ + " | "@ + flag_text(proxy, lang) + " | "@ + flag_text(vpn, lang) + " | "@
            + flag_text(tor, lang) + " | "@ + type_text(t) + " | "@);
}

fn push_compare_row(out: &mut String, d: &SourceData, lang: Lang)
    ensures
        final(out)@ == old(out)@ + compare_row(d@, lang),
{
    let ghost start = out@;
    push_cells(out, &d.source_id, d.is_proxy, d.is_vpn, d.is_tor, d.ip_type, lang);
    push_risk(out, d);
    push_text(out, " |\n");
    assert(out@ =~= start + compare_row(d@, lang));
}

fn push_compare_table(out: &mut String, raw: &Vec<SourceData>, lang: Lang)
    ensures
        final(out)@ == old(out)@ + compare_table(views(raw@), lang),
{
    if raw.len() == 0 {
        assert(out@ =~= old(out)@ + compare_table(views(raw@), lang));
        return;
    }
    let ghost start = out@;
    push_text(out, "## ");
    push_text(out, lang.pick("各源关键判定对比", "Per-source verdicts"));
    push_text(out, "\n\n");
    push_text(out, "| ");
    push_text(out, lang.pick("源", "Source"));
    push_text(out, " | ");
    push_text(out, lang.pick("代理", "Proxy"));
    push_text(out, " | VPN | Tor | ");
    push_text(out, lang.pick("类型", "Type"));
    push_text(out, " | ");
    push_text(out, lang.pick("风险分", "Risk"));
    push_text(out, " |\n|---|---|---|---|---|---|\n");
    let ghost mid = out@;
    let ghost s = views(raw@);
    let mut i: usize = 0;
    while i < raw.len()
        invariant
            i <= raw@.len(),
            s == views(raw@),
            out@ == mid + compare_rows(s.take(i as int), lang),
        decreases raw.len() - i,
    {
        assert(s.take(i + 1).drop_last() =~= s.take(i as int));
        push_compare_row(out, &raw[i], lang);
        i += 1;
    }
    assert(s.take(raw@.len() as int) =~= s);
    push_text(out, "\n");
    assert(out@ =~= start + compare_table(s, lang));
}

fn push_bullets(out: &mut String, lines: &Vec<String>)
    ensures
        final(out)@ == old(out)@ + bullet_lines(texts(lines@)),
{
    let ghost start = out@;
    let ghost s = texts(lines@);
    let mut i: usize = 0;
    while i < lines.len()
        invariant
            i <= lines@.len(),
            s == texts(lines@),
            out@ == start + bullet_lines(s.take(i as int)),
        decreases lines.len() - i,
    {
        assert(s.take(i + 1).drop_last() =~= s.take(i as int));
        let ghost before = out@;
        push_text(out, "- ");
        push_text(out, lines[i].as_str());
        push_text(out, "\n");
        assert(out@ =~= before + "- "@ + s[i as int] + "\n"@);
        i += 1;
    }
    assert(s.take(lines@.len() as int) =~= s);
}

fn push_status_word(out: &mut String, st: &SourceStatus)
    ensures
        final(out)@ == old(out)@ + status_word(st@),
{
    let ghost start = out@;
    if st.ok {
        push_text(out, "✓");
    } else {
        push_text(out, "✗");
    }
    push_text(out, st.id.as_str());
    assert(out@ =~= start + status_word(st@));
}

fn push_status_words(out: &mut String, sts: &Vec<SourceStatus>)
    ensures
        final(out)@ == old(out)@ + status_words(status_views(sts@)),
{
    let ghost start = out@;
    let ghost s = status_views(sts@);
    let mut i: usize = 0;
    while i < sts.len()
        invariant
            i <= sts@.len(),
            s == status_views(sts@),
            out@ == start + status_words(s.take(i as int)),
        decreases sts.len() - i,
    {
        assert(s.take(i + 1).drop_last() =~= s.take(i as int));
        let ghost before = out@;
        if i > 0 {
            push_text(out, " ");
        }
        push_status_word(out, &sts[i]);
        proof {
            if i == 0 {
                assert(s.take(1)[0] == s[0]);
                assert(out@ =~= start + status_words(s.take(1)));
            } else {
                assert(out@ =~= start + status_words(s.take(i + 1)));
            }
        }
        i += 1;
    }
    assert(s.take(sts@.len() as int) =~= s);
}

fn push_asn_line(out: &mut String, asn: Option<u32>, org: &Option<String>)
    ensures
        final(out)@ == old(out)@ + asn_line(asn, opt_text(*org)),
{
    reveal(asn_line);
    let ghost start = out@;
    push_text(out, "| ASN | ");
    match asn {
        Some(a) => {
            push_text(out, "AS");
            let t = uint_text(a as u64);
            push_text(out, t.as_str());
        },
        None => push_text(out, "—"),
    }
    push_text(out, " ");
    push_dash(out, org);
    push_text(out, " |\n");
    assert(out@ =~= start + "| ASN | "@ + asn_cell(asn) + " "@ + or_dash(opt_text(*org)) + " |\n"@);
}

#[verifier::spinoff_prover]
#[verifier::rlimit(40)]
fn push_place_lines(out: &mut String, country: &Option<String>, region: &Option<String>, city: &Option<String>, rdns: &Option<String>, lang: Lang)
    ensures
        final(out)@ == old(out)@ + place_lines(opt_text(*country), opt_text(*region), opt_text(*city), opt_text(*rdns), lang),
{
    reveal(place_lines);
    let ghost start = out@;
    push_text(out, "| ");
    push_text(out, lang.pick("归属", "Location"));
    push_text(out, " | ");
    push_dash(out, country);
    push_text(out, " ");
    push_dash(out, region);
    push_text(out, " ");
    push_dash(out, city);
    push_text(out, " |\n");
    let ghost mid = out@;
    assert(mid =~= start + "| "@ + lang.text("归属"@, "Location"@) + " | "@ + or_dash(opt_text(*country)) + " "@
            + or_dash(opt_text(*region)) + " "@ + or_dash(opt_text(*city)) + " |\n"@);
    push_text(out, "| rDNS | ");
    push_dash(out, rdns);
    push_text(out, " |\n");
    push_text(out, "\n");
    assert(out@ =~= start + "| "@ + lang.text("归属"@, "Location"@) + " | "@ + or_dash(opt_text(*country)) + " "@
            + or_dash(opt_text(*region)) + " "@ + or_dash(opt_text(*city)) + " |\n"@
            + "| rDNS | "@ + or_dash(opt_text(*rdns)) + " |\n"@ + "\n"@);
}

fn push_basics_head(out: &mut String, lang: Lang)
    ensures
        final(out)@ == old(out)@ + basics_head(lang),
{
    reveal(basics_head);
    let ghost start = out@;
    push_text(out, "## ");
    push_text(out, lang.pick("基础信息", "Basics"));
    push_text(out, "\n\n");
    push_text(out, "| ");
    push_text(out, lang.pick("字段", "Field"));
    push_text(out, " | ");
    push_text(out, lang.pick("值", "Value"));
    push_text(out, " |\n|---|---|\n");
    assert(out@ =~= start + basics_head(lang));
}

fn push_basics(out: &mut String, r: &MergedReport, lang: Lang)
    ensures
        final(out)@ == old(out)@ + basics_of(r.asn, opt_text(r.as_org), opt_text(r.country), opt_text(r.region),
            opt_text(r.city), opt_text(r.rdns), lang),
{
    let ghost start = out@;
    push_basics_head(out, lang);
    let ghost m1 = out@;
    push_asn_line(out, r.asn, &r.as_org);
    let ghost m2 = out@;
    push_place_lines(out, &r.country, &r.region, &r.city, &r.rdns, lang);
    assert(out@ =~= start + basics_of(r.asn, opt_text(r.as_org), opt_text(r.country), opt_text(r.region),
            opt_text(r.city), opt_text(r.rdns), lang));
}

/// The report in Markdown: title with the address, the basic fields, the
/// per-source comparison table (where any source answered), the heuristic
/// verdict and the status of every source.
pub fn to_markdown(r: &MergedReport, lang: Lang) -> (out: String)
    ensures
        out@ == markdown(ip_text(r.ip), r.fields(), views(r.raw@), status_views(r.sources@), lang),
{
    let mut out = String::new();
    push_text(&mut out, "# ");
    push_text(&mut out, lang.pick("IP 全景报告", "IP Panorama Report"));
    push_text(&mut out, " ");
    match &r.ip {
        Some(s) => push_text(&mut out, s.as_str()),
        None => {},
    }
    push_text(&mut out, "\n\n");
    let ghost p1 = out@;
    assert(p1 =~= Seq::<char>::empty() + "# "@ + lang.text("IP 全景报告"@, "IP Panorama Report"@) + " "@ + ip_text(r.ip) + "\n\n"@);
    push_basics(&mut out, r, lang);
    push_compare_table(&mut out, &r.raw, lang);
    let ghost p2 = out@;
    push_text(&mut out, "## ");
    push_text(&mut out, lang.pick("启发式结论", "Heuristic verdict"));
    push_text(&mut out, "\n\n");
    let lines = conclude(r, lang);
    push_bullets(&mut out, &lines);
    push_text(&mut out, "\n");
    let ghost p3 = out@;
    assert(p3 =~= p2 + "## "@ + lang.text("启发式结论"@, "Heuristic verdict"@) + "\n\n"@
        + bullet_lines(conclusions(r.fields(), lang)) + "\n"@);
    push_text(&mut out, "> ");
    push_text(&mut out, lang.pick("源状态", "Source status"));
    push_text(&mut out, " ");
    push_status_words(&mut out, &r.sources);
    push_text(&mut out, "\n");
    assert(out@ =~= markdown(ip_text(r.ip), r.fields(), views(r.raw@), status_views(r.sources@), lang));
    out
}

} // verus!
