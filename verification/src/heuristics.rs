//! Heuristic verdict lines drawn from a merged report.

use vstd::prelude::*;
use crate::aggregate::MergedReport;
use crate::i18n::Lang;
use crate::model::{IpType, SourceDataV};
use crate::text::owned;

verus! {

/// `line` alone where `c` holds, else nothing.
pub open spec fn when(c: bool, line: Seq<char>) -> Seq<Seq<char>> {
    if c { seq![line] } else { Seq::empty() }
}

/// The line naming the kind of address, where a kind other than `Unknown` is known.
pub open spec fn type_line(t: Option<IpType>, lang: Lang) -> Seq<Seq<char>> {
    match t {
        Some(IpType::Hosting) => seq![lang.text("机房/IDC IP(非住宅)"@, "Datacenter/IDC IP (non-residential)"@)],
        Some(IpType::Native) => seq![lang.text("原生 IP"@, "Native IP"@)],
        Some(IpType::Residential) => seq![lang.text("住宅宽带 IP"@, "Residential broadband IP"@)],
        Some(IpType::Mobile) => seq![lang.text("移动网络 IP"@, "Mobile network IP"@)],
        Some(IpType::Broadcast) => seq![lang.text("广播/数据中心 IP"@, "Broadcast/datacenter IP"@)],
        Some(IpType::Business) => seq![lang.text("商业 IP"@, "Business IP"@)],
        _ => Seq::empty(),
    }
}

pub open spec fn at_least(v: Option<i64>, bound: i64) -> bool {
    match v {
        Some(x) => x >= bound,
        None => false,
    }
}

/// Any of the fraud scores is high: IPQS, fraud or risk score at least 75,
/// or AbuseIPDB confidence at least 50.
pub open spec fn high_fraud(f: SourceDataV) -> bool {
    at_least(f.ipqs_score, 75) || at_least(f.fraud_score, 75) || at_least(f.abuseipdb_score, 50)
        || at_least(f.risk_score, 75)
}

/// No proxy, VPN, Tor or abuse flag and no high fraud score.
pub open spec fn no_flags(f: SourceDataV) -> bool {
    f.is_proxy != Some(true) && f.is_vpn != Some(true) && f.is_tor != Some(true)
        && f.is_abuser != Some(true) && !high_fraud(f)
}

/// A trust score of at least 60, or a residential or native address.
pub open spec fn looks_clean(f: SourceDataV) -> bool {
    at_least(f.trust_score, 60) || f.ip_type == Some(IpType::Residential) || f.ip_type == Some(IpType::Native)
}

pub open spec fn low_trust(f: SourceDataV) -> bool {
    match f.trust_score {
        Some(t) => t < 40,
        None => false,
    }
}

/// The findings, each criterion on its own.
pub open spec fn findings(f: SourceDataV, lang: Lang) -> Seq<Seq<char>> {
    when(f.is_tor == Some(true), lang.text("⚠ Tor 出口节点"@, "⚠ Tor exit node"@))
        + when(f.is_vpn == Some(true), lang.text("⚠ 检测到 VPN"@, "⚠ VPN detected"@))
        + when(f.is_proxy == Some(true), lang.text("⚠ 检测到代理"@, "⚠ Proxy detected"@))
        + type_line(f.ip_type, lang)
        + when(f.is_abuser == Some(true), lang.text("存在历史滥用记录"@, "Has prior abuse reports"@))
        + when(low_trust(f), lang.text("纯净度偏低(<40)"@, "Low purity score (<40)"@))
        + when(high_fraud(f), lang.text("高欺诈/滥用风险"@, "High fraud/abuse risk"@))
        + when(no_flags(f) && looks_clean(f), clean_line(lang))
}

pub open spec fn clean_line(lang: Lang) -> Seq<char> {
    lang.text("未见明显风险"@, "No obvious risk detected"@)
}

/// The verdict lines: the findings, or a single line saying the data do not
/// suffice where there are none.
pub open spec fn conclusions(f: SourceDataV, lang: Lang) -> Seq<Seq<char>> {
    if findings(f, lang).len() == 0 {
        seq![lang.text("数据不足,无法判定"@, "Insufficient data for a verdict"@)]
    } else {
        findings(f, lang)
    }
}

/// The texts of a list of strings.
pub open spec fn texts(s: Seq<String>) -> Seq<Seq<char>> {
    s.map_values(|x: String| x@)
}

fn push_line(out: &mut Vec<String>, line: &str)
    ensures
        texts(final(out)@) == texts(old(out)@).push(line@),
{
    let ghost prev = out@;
    let s = owned(line);
    out.push(s);
    assert(texts(out@) =~= texts(prev).push(line@));
}

fn push_when(out: &mut Vec<String>, c: bool, line: &str)
    ensures
        texts(final(out)@) == texts(old(out)@) + when(c, line@),
{
    if c {
        push_line(out, line);
        assert(texts(out@) =~= texts(old(out)@) + when(c, line@));
    } else {
        assert(texts(out@) =~= texts(old(out)@) + when(c, line@));
    }
}

fn push_type(out: &mut Vec<String>, t: Option<IpType>, lang: Lang)
    ensures
        texts(final(out)@) == texts(old(out)@) + type_line(t, lang),
{
    let ghost prev = texts(out@);
    match t {
        Some(IpType::Hosting) => push_line(out, lang.pick("机房/IDC IP(非住宅)", "Datacenter/IDC IP (non-residential)")),
        Some(IpType::Native) => push_line(out, lang.pick("原生 IP", "Native IP")),
        Some(IpType::Residential) => push_line(out, lang.pick("住宅宽带 IP", "Residential broadband IP")),
        Some(IpType::Mobile) => push_line(out, lang.pick("移动网络 IP", "Mobile network IP")),
        Some(IpType::Broadcast) => push_line(out, lang.pick("广播/数据中心 IP", "Broadcast/datacenter IP")),
        Some(IpType::Business) => push_line(out, lang.pick("商业 IP", "Business IP")),
        _ => {},
    }
    assert(texts(out@) =~= prev + type_line(t, lang));
}

fn at_least_exec(v: Option<i64>, bound: i64) -> (r: bool)
    ensures
        r == at_least(v, bound),
{
    match v {
        Some(x) => x >= bound,
        None => false,
    }
}

/// Heuristic verdict on a merged report, in the chosen language. The
/// criteria are independent and add up; where none applies, one line says
/// the data do not suffice.
pub fn conclude(r: &MergedReport, lang: Lang) -> (out: Vec<String>)
    ensures
        texts(out@) == conclusions(r.fields(), lang),
        (match r.abuseipdb_score { Some(x) => x >= 50, None => false })
            || (match r.ipqs_score { Some(x) => x >= 75, None => false })
            || (match r.fraud_score { Some(x) => x >= 75, None => false })
            || (match r.risk_score { Some(x) => x >= 75, None => false })
            ==> texts(out@).contains(lang.text("高欺诈/滥用风险"@, "High fraud/abuse risk"@)),
{
    let ghost f = r.fields();
    let mut out: Vec<String> = Vec::new();
    assert(texts(out@) =~= Seq::<Seq<char>>::empty());
    push_when(&mut out, r.is_tor == Some(true), lang.pick("⚠ Tor 出口节点", "⚠ Tor exit node"));
    push_when(&mut out, r.is_vpn == Some(true), lang.pick("⚠ 检测到 VPN", "⚠ VPN detected"));
    push_when(&mut out, r.is_proxy == Some(true), lang.pick("⚠ 检测到代理", "⚠ Proxy detected"));
    push_type(&mut out, r.ip_type, lang);
    push_when(&mut out, r.is_abuser == Some(true), lang.pick("存在历史滥用记录", "Has prior abuse reports"));
    let low = match r.trust_score {
        Some(t) => t < 40,
        None => false,
    };
    push_when(&mut out, low, lang.pick("纯净度偏低(<40)", "Low purity score (<40)"));
    let high = at_least_exec(r.ipqs_score, 75) || at_least_exec(r.fraud_score, 75)
        || at_least_exec(r.abuseipdb_score, 50) || at_least_exec(r.risk_score, 75);
    push_when(&mut out, high, lang.pick("高欺诈/滥用风险", "High fraud/abuse risk"));
    let flags_clear = r.is_proxy != Some(true) && r.is_vpn != Some(true) && r.is_tor != Some(true)
        && r.is_abuser != Some(true) && !high;
    let clean = at_least_exec(r.trust_score, 60) || r.ip_type == Some(IpType::Residential)
        || r.ip_type == Some(IpType::Native);
    push_when(&mut out, flags_clear && clean, lang.pick("未见明显风险", "No obvious risk detected"));
    assert(texts(out@) =~= findings(f, lang));
    if out.len() == 0 {
        push_line(&mut out, lang.pick("数据不足,无法判定", "Insufficient data for a verdict"));
        assert(texts(out@) =~= conclusions(f, lang));
    }
    proof {
        if (match r.abuseipdb_score { Some(x) => x >= 50, None => false })
            || (match r.ipqs_score { Some(x) => x >= 75, None => false })
            || (match r.fraud_score { Some(x) => x >= 75, None => false })
            || (match r.risk_score { Some(x) => x >= 75, None => false }) {
            lemma_high_score_flags_risk(f, lang);
        }
    }
    out
}

/// A verdict always has at least one line.
pub proof fn lemma_conclusions_nonempty(f: SourceDataV, lang: Lang)
    ensures
        conclusions(f, lang).len() > 0,
{
}

/// No line of `s` is `c`.
pub open spec fn avoids(s: Seq<Seq<char>>, c: Seq<char>) -> bool {
    forall|i: int| 0 <= i < s.len() ==> s[i] != c
}

proof fn lemma_avoids_concat(x: Seq<Seq<char>>, y: Seq<Seq<char>>, c: Seq<char>)
    requires
        avoids(x, c),
        avoids(y, c),
    ensures
        avoids(x + y, c),
{
    assert forall|i: int| 0 <= i < (x + y).len() implies (x + y)[i] != c by {
        if i < x.len() {
            assert((x + y)[i] == x[i]);
        } else {
            assert((x + y)[i] == y[i - x.len()]);
        }
    }
}

proof fn lemma_zh_lines_differ()
    ensures
        "⚠ Tor 出口节点"@ != "未见明显风险"@,
        "⚠ Tor 出口节点"@ != "数据不足,无法判定"@,
        "⚠ 检测到 VPN"@ != "未见明显风险"@,
        "⚠ 检测到 VPN"@ != "数据不足,无法判定"@,
        "⚠ 检测到代理"@ != "未见明显风险"@,
        "⚠ 检测到代理"@ != "数据不足,无法判定"@,
        "机房/IDC IP(非住宅)"@ != "未见明显风险"@,
        "机房/IDC IP(非住宅)"@ != "数据不足,无法判定"@,
        "原生 IP"@ != "未见明显风险"@,
        "原生 IP"@ != "数据不足,无法判定"@,
        "住宅宽带 IP"@ != "未见明显风险"@,
        "住宅宽带 IP"@ != "数据不足,无法判定"@,
        "移动网络 IP"@ != "未见明显风险"@,
        "移动网络 IP"@ != "数据不足,无法判定"@,
        "广播/数据中心 IP"@ != "未见明显风险"@,
        "广播/数据中心 IP"@ != "数据不足,无法判定"@,
        "商业 IP"@ != "未见明显风险"@,
        "商业 IP"@ != "数据不足,无法判定"@,
        "存在历史滥用记录"@ != "未见明显风险"@,
        "存在历史滥用记录"@ != "数据不足,无法判定"@,
        "纯净度偏低(<40)"@ != "未见明显风险"@,
        "纯净度偏低(<40)"@ != "数据不足,无法判定"@,
        "高欺诈/滥用风险"@ != "未见明显风险"@,
        "高欺诈/滥用风险"@ != "数据不足,无法判定"@,
{
    reveal_strlit("⚠ Tor 出口节点");
    reveal_strlit("⚠ 检测到 VPN");
    reveal_strlit("⚠ 检测到代理");
    reveal_strlit("机房/IDC IP(非住宅)");
    reveal_strlit("原生 IP");
    reveal_strlit("住宅宽带 IP");
    reveal_strlit("移动网络 IP");
    reveal_strlit("广播/数据中心 IP");
    reveal_strlit("商业 IP");
    reveal_strlit("存在历史滥用记录");
    reveal_strlit("纯净度偏低(<40)");
    reveal_strlit("高欺诈/滥用风险");
    reveal_strlit("未见明显风险");
    reveal_strlit("数据不足,无法判定");
    assert("⚠ Tor 出口节点"@.len() != "未见明显风险"@.len() || "⚠ Tor 出口节点"@[0] != "未见明显风险"@[0] || "⚠ Tor 出口节点"@[1] != "未见明显风险"@[1]);
    assert("⚠ Tor 出口节点"@.len() != "数据不足,无法判定"@.len() || "⚠ Tor 出口节点"@[0] != "数据不足,无法判定"@[0] || "⚠ Tor 出口节点"@[1] != "数据不足,无法判定"@[1]);
    assert("⚠ 检测到 VPN"@.len() != "未见明显风险"@.len() || "⚠ 检测到 VPN"@[0] != "未见明显风险"@[0] || "⚠ 检测到 VPN"@[1] != "未见明显风险"@[1]);
    assert("⚠ 检测到 VPN"@.len() != "数据不足,无法判定"@.len() || "⚠ 检测到 VPN"@[0] != "数据不足,无法判定"@[0] || "⚠ 检测到 VPN"@[1] != "数据不足,无法判定"@[1]);
    assert("⚠ 检测到代理"@.len() != "未见明显风险"@.len() || "⚠ 检测到代理"@[0] != "未见明显风险"@[0] || "⚠ 检测到代理"@[1] != "未见明显风险"@[1]);
    assert("⚠ 检测到代理"@.len() != "数据不足,无法判定"@.len() || "⚠ 检测到代理"@[0] != "数据不足,无法判定"@[0] || "⚠ 检测到代理"@[1] != "数据不足,无法判定"@[1]);
    assert("机房/IDC IP(非住宅)"@.len() != "未见明显风险"@.len() || "机房/IDC IP(非住宅)"@[0] != "未见明显风险"@[0] || "机房/IDC IP(非住宅)"@[1] != "未见明显风险"@[1]);
    assert("机房/IDC IP(非住宅)"@.len() != "数据不足,无法判定"@.len() || "机房/IDC IP(非住宅)"@[0] != "数据不足,无法判定"@[0] || "机房/IDC IP(非住宅)"@[1] != "数据不足,无法判定"@[1]);
    assert("原生 IP"@.len() != "未见明显风险"@.len() || "原生 IP"@[0] != "未见明显风险"@[0] || "原生 IP"@[1] != "未见明显风险"@[1]);
    assert("原生 IP"@.len() != "数据不足,无法判定"@.len() || "原生 IP"@[0] != "数据不足,无法判定"@[0] || "原生 IP"@[1] != "数据不足,无法判定"@[1]);
    assert("住宅宽带 IP"@.len() != "未见明显风险"@.len() || "住宅宽带 IP"@[0] != "未见明显风险"@[0] || "住宅宽带 IP"@[1] != "未见明显风险"@[1]);
    assert("住宅宽带 IP"@.len() != "数据不足,无法判定"@.len() || "住宅宽带 IP"@[0] != "数据不足,无法判定"@[0] || "住宅宽带 IP"@[1] != "数据不足,无法判定"@[1]);
    assert("移动网络 IP"@.len() != "未见明显风险"@.len() || "移动网络 IP"@[0] != "未见明显风险"@[0] || "移动网络 IP"@[1] != "未见明显风险"@[1]);
    assert("移动网络 IP"@.len() != "数据不足,无法判定"@.len() || "移动网络 IP"@[0] != "数据不足,无法判定"@[0] || "移动网络 IP"@[1] != "数据不足,无法判定"@[1]);
    assert("广播/数据中心 IP"@.len() != "未见明显风险"@.len() || "广播/数据中心 IP"@[0] != "未见明显风险"@[0] || "广播/数据中心 IP"@[1] != "未见明显风险"@[1]);
    assert("广播/数据中心 IP"@.len() != "数据不足,无法判定"@.len() || "广播/数据中心 IP"@[0] != "数据不足,无法判定"@[0] || "广播/数据中心 IP"@[1] != "数据不足,无法判定"@[1]);
    assert("商业 IP"@.len() != "未见明显风险"@.len() || "商业 IP"@[0] != "未见明显风险"@[0] || "商业 IP"@[1] != "未见明显风险"@[1]);
    assert("商业 IP"@.len() != "数据不足,无法判定"@.len() || "商业 IP"@[0] != "数据不足,无法判定"@[0] || "商业 IP"@[1] != "数据不足,无法判定"@[1]);
    assert("存在历史滥用记录"@.len() != "未见明显风险"@.len() || "存在历史滥用记录"@[0] != "未见明显风险"@[0] || "存在历史滥用记录"@[1] != "未见明显风险"@[1]);
    assert("存在历史滥用记录"@.len() != "数据不足,无法判定"@.len() || "存在历史滥用记录"@[0] != "数据不足,无法判定"@[0] || "存在历史滥用记录"@[1] != "数据不足,无法判定"@[1]);
    assert("纯净度偏低(<40)"@.len() != "未见明显风险"@.len() || "纯净度偏低(<40)"@[0] != "未见明显风险"@[0] || "纯净度偏低(<40)"@[1] != "未见明显风险"@[1]);
    assert("纯净度偏低(<40)"@.len() != "数据不足,无法判定"@.len() || "纯净度偏低(<40)"@[0] != "数据不足,无法判定"@[0] || "纯净度偏低(<40)"@[1] != "数据不足,无法判定"@[1]);
    assert("高欺诈/滥用风险"@.len() != "未见明显风险"@.len() || "高欺诈/滥用风险"@[0] != "未见明显风险"@[0] || "高欺诈/滥用风险"@[1] != "未见明显风险"@[1]);
    assert("高欺诈/滥用风险"@.len() != "数据不足,无法判定"@.len() || "高欺诈/滥用风险"@[0] != "数据不足,无法判定"@[0] || "高欺诈/滥用风险"@[1] != "数据不足,无法判定"@[1]);
}

proof fn lemma_en_lines_differ()
    ensures
        "⚠ Tor exit node"@ != "No obvious risk detected"@,
        "⚠ Tor exit node"@ != "Insufficient data for a verdict"@,
        "⚠ VPN detected"@ != "No obvious risk detected"@,
        "⚠ VPN detected"@ != "Insufficient data for a verdict"@,
        "⚠ Proxy detected"@ != "No obvious risk detected"@,
        "⚠ Proxy detected"@ != "Insufficient data for a verdict"@,
        "Datacenter/IDC IP (non-residential)"@ != "No obvious risk detected"@,
        "Datacenter/IDC IP (non-residential)"@ != "Insufficient data for a verdict"@,
        "Native IP"@ != "No obvious risk detected"@,
        "Native IP"@ != "Insufficient data for a verdict"@,
        "Residential broadband IP"@ != "No obvious risk detected"@,
        "Residential broadband IP"@ != "Insufficient data for a verdict"@,
        "Mobile network IP"@ != "No obvious risk detected"@,
        "Mobile network IP"@ != "Insufficient data for a verdict"@,
        "Broadcast/datacenter IP"@ != "No obvious risk detected"@,
        "Broadcast/datacenter IP"@ != "Insufficient data for a verdict"@,
        "Business IP"@ != "No obvious risk detected"@,
        "Business IP"@ != "Insufficient data for a verdict"@,
        "Has prior abuse reports"@ != "No obvious risk detected"@,
        "Has prior abuse reports"@ != "Insufficient data for a verdict"@,
        "Low purity score (<40)"@ != "No obvious risk detected"@,
        "Low purity score (<40)"@ != "Insufficient data for a verdict"@,
        "High fraud/abuse risk"@ != "No obvious risk detected"@,
        "High fraud/abuse risk"@ != "Insufficient data for a verdict"@,
{
    reveal_strlit("⚠ Tor exit node");
    reveal_strlit("⚠ VPN detected");
    reveal_strlit("⚠ Proxy detected");
    reveal_strlit("Datacenter/IDC IP (non-residential)");
    reveal_strlit("Native IP");
    reveal_strlit("Residential broadband IP");
    reveal_strlit("Mobile network IP");
    reveal_strlit("Broadcast/datacenter IP");
    reveal_strlit("Business IP");
    reveal_strlit("Has prior abuse reports");
    reveal_strlit("Low purity score (<40)");
    reveal_strlit("High fraud/abuse risk");
    reveal_strlit("No obvious risk detected");
    reveal_strlit("Insufficient data for a verdict");
    assert("⚠ Tor exit node"@.len() != "No obvious risk detected"@.len() || "⚠ Tor exit node"@[0] != "No obvious risk detected"@[0] || "⚠ Tor exit node"@[1] != "No obvious risk detected"@[1]);
    assert("⚠ Tor exit node"@.len() != "Insufficient data for a verdict"@.len() || "⚠ Tor exit node"@[0] != "Insufficient data for a verdict"@[0] || "⚠ Tor exit node"@[1] != "Insufficient data for a verdict"@[1]);
    assert("⚠ VPN detected"@.len() != "No obvious risk detected"@.len() || "⚠ VPN detected"@[0] != "No obvious risk detected"@[0] || "⚠ VPN detected"@[1] != "No obvious risk detected"@[1]);
    assert("⚠ VPN detected"@.len() != "Insufficient data for a verdict"@.len() || "⚠ VPN detected"@[0] != "Insufficient data for a verdict"@[0] || "⚠ VPN detected"@[1] != "Insufficient data for a verdict"@[1]);
    assert("⚠ Proxy detected"@.len() != "No obvious risk detected"@.len() || "⚠ Proxy detected"@[0] != "No obvious risk detected"@[0] || "⚠ Proxy detected"@[1] != "No obvious risk detected"@[1]);
    assert("⚠ Proxy detected"@.len() != "Insufficient data for a verdict"@.len() || "⚠ Proxy detected"@[0] != "Insufficient data for a verdict"@[0] || "⚠ Proxy detected"@[1] != "Insufficient data for a verdict"@[1]);
    assert("Datacenter/IDC IP (non-residential)"@.len() != "No obvious risk detected"@.len() || "Datacenter/IDC IP (non-residential)"@[0] != "No obvious risk detected"@[0] || "Datacenter/IDC IP (non-residential)"@[1] != "No obvious risk detected"@[1]);
    assert("Datacenter/IDC IP (non-residential)"@.len() != "Insufficient data for a verdict"@.len() || "Datacenter/IDC IP (non-residential)"@[0] != "Insufficient data for a verdict"@[0] || "Datacenter/IDC IP (non-residential)"@[1] != "Insufficient data for a verdict"@[1]);
    assert("Native IP"@.len() != "No obvious risk detected"@.len() || "Native IP"@[0] != "No obvious risk detected"@[0] || "Native IP"@[1] != "No obvious risk detected"@[1]);
    assert("Native IP"@.len() != "Insufficient data for a verdict"@.len() || "Native IP"@[0] != "Insufficient data for a verdict"@[0] || "Native IP"@[1] != "Insufficient data for a verdict"@[1]);
    assert("Residential broadband IP"@.len() != "No obvious risk detected"@.len() || "Residential broadband IP"@[0] != "No obvious risk detected"@[0] || "Residential broadband IP"@[1] != "No obvious risk detected"@[1]);
    assert("Residential broadband IP"@.len() != "Insufficient data for a verdict"@.len() || "Residential broadband IP"@[0] != "Insufficient data for a verdict"@[0] || "Residential broadband IP"@[1] != "Insufficient data for a verdict"@[1]);
    assert("Mobile network IP"@.len() != "No obvious risk detected"@.len() || "Mobile network IP"@[0] != "No obvious risk detected"@[0] || "Mobile network IP"@[1] != "No obvious risk detected"@[1]);
    assert("Mobile network IP"@.len() != "Insufficient data for a verdict"@.len() || "Mobile network IP"@[0] != "Insufficient data for a verdict"@[0] || "Mobile network IP"@[1] != "Insufficient data for a verdict"@[1]);
    assert("Broadcast/datacenter IP"@.len() != "No obvious risk detected"@.len() || "Broadcast/datacenter IP"@[0] != "No obvious risk detected"@[0] || "Broadcast/datacenter IP"@[1] != "No obvious risk detected"@[1]);
    assert("Broadcast/datacenter IP"@.len() != "Insufficient data for a verdict"@.len() || "Broadcast/datacenter IP"@[0] != "Insufficient data for a verdict"@[0] || "Broadcast/datacenter IP"@[1] != "Insufficient data for a verdict"@[1]);
    assert("Business IP"@.len() != "No obvious risk detected"@.len() || "Business IP"@[0] != "No obvious risk detected"@[0] || "Business IP"@[1] != "No obvious risk detected"@[1]);
    assert("Business IP"@.len() != "Insufficient data for a verdict"@.len() || "Business IP"@[0] != "Insufficient data for a verdict"@[0] || "Business IP"@[1] != "Insufficient data for a verdict"@[1]);
    assert("Has prior abuse reports"@.len() != "No obvious risk detected"@.len() || "Has prior abuse reports"@[0] != "No obvious risk detected"@[0] || "Has prior abuse reports"@[1] != "No obvious risk detected"@[1]);
    assert("Has prior abuse reports"@.len() != "Insufficient data for a verdict"@.len() || "Has prior abuse reports"@[0] != "Insufficient data for a verdict"@[0] || "Has prior abuse reports"@[1] != "Insufficient data for a verdict"@[1]);
    assert("Low purity score (<40)"@.len() != "No obvious risk detected"@.len() || "Low purity score (<40)"@[0] != "No obvious risk detected"@[0] || "Low purity score (<40)"@[1] != "No obvious risk detected"@[1]);
    assert("Low purity score (<40)"@.len() != "Insufficient data for a verdict"@.len() || "Low purity score (<40)"@[0] != "Insufficient data for a verdict"@[0] || "Low purity score (<40)"@[1] != "Insufficient data for a verdict"@[1]);
    assert("High fraud/abuse risk"@.len() != "No obvious risk detected"@.len() || "High fraud/abuse risk"@[0] != "No obvious risk detected"@[0] || "High fraud/abuse risk"@[1] != "No obvious risk detected"@[1]);
    assert("High fraud/abuse risk"@.len() != "Insufficient data for a verdict"@.len() || "High fraud/abuse risk"@[0] != "Insufficient data for a verdict"@[0] || "High fraud/abuse risk"@[1] != "Insufficient data for a verdict"@[1]);
}

/// The verdict lines other than the closing ones differ from the "no obvious
/// risk" and "insufficient data" lines.
proof fn lemma_findings_avoid(f: SourceDataV, lang: Lang)
    requires
        !(no_flags(f) && looks_clean(f)),
    ensures
        avoids(findings(f, lang), lang.text("未见明显风险"@, "No obvious risk detected"@)),
        avoids(findings(f, lang), lang.text("数据不足,无法判定"@, "Insufficient data for a verdict"@)),
{
    lemma_zh_lines_differ();
    lemma_en_lines_differ();
    let c = lang.text("未见明显风险"@, "No obvious risk detected"@);
    let d = lang.text("数据不足,无法判定"@, "Insufficient data for a verdict"@);
    let p0 = when(f.is_tor == Some(true), lang.text("⚠ Tor 出口节点"@, "⚠ Tor exit node"@));
    let p1 = when(f.is_vpn == Some(true), lang.text("⚠ 检测到 VPN"@, "⚠ VPN detected"@));
    let p2 = when(f.is_proxy == Some(true), lang.text("⚠ 检测到代理"@, "⚠ Proxy detected"@));
    let p3 = type_line(f.ip_type, lang);
    let p4 = when(f.is_abuser == Some(true), lang.text("存在历史滥用记录"@, "Has prior abuse reports"@));
    let p5 = when(low_trust(f), lang.text("纯净度偏低(<40)"@, "Low purity score (<40)"@));
    let p6 = when(high_fraud(f), lang.text("高欺诈/滥用风险"@, "High fraud/abuse risk"@));
    let p7 = when(no_flags(f) && looks_clean(f), clean_line(lang));
    assert(avoids(p0, c) && avoids(p0, d));
    assert(avoids(p1, c) && avoids(p1, d));
    assert(avoids(p2, c) && avoids(p2, d));
    assert(avoids(p3, c) && avoids(p3, d));
    assert(avoids(p4, c) && avoids(p4, d));
    assert(avoids(p5, c) && avoids(p5, d));
    assert(avoids(p6, c) && avoids(p6, d));
    assert(p7.len() == 0);
    assert(avoids(p7, c) && avoids(p7, d));
    lemma_avoids_concat(p0, p1, c);
    lemma_avoids_concat(p0 + p1, p2, c);
    lemma_avoids_concat(p0 + p1 + p2, p3, c);
    lemma_avoids_concat(p0 + p1 + p2 + p3, p4, c);
    lemma_avoids_concat(p0 + p1 + p2 + p3 + p4, p5, c);
    lemma_avoids_concat(p0 + p1 + p2 + p3 + p4 + p5, p6, c);
    lemma_avoids_concat(p0 + p1 + p2 + p3 + p4 + p5 + p6, p7, c);
    lemma_avoids_concat(p0, p1, d);
    lemma_avoids_concat(p0 + p1, p2, d);
    lemma_avoids_concat(p0 + p1 + p2, p3, d);
    lemma_avoids_concat(p0 + p1 + p2 + p3, p4, d);
    lemma_avoids_concat(p0 + p1 + p2 + p3 + p4, p5, d);
    lemma_avoids_concat(p0 + p1 + p2 + p3 + p4 + p5, p6, d);
    lemma_avoids_concat(p0 + p1 + p2 + p3 + p4 + p5 + p6, p7, d);
}

/// A high score from any fraud source puts the high fraud/abuse risk line in
/// the verdict, and then the verdict neither says that no risk was seen nor
/// that the data do not suffice: an IPQS, fraud or risk score of at least 75,
/// or an AbuseIPDB confidence of at least 50, is enough.
pub proof fn lemma_high_score_flags_risk(f: SourceDataV, lang: Lang)
    requires
        (match f.ipqs_score { Some(x) => x >= 75, None => false })
            || (match f.fraud_score { Some(x) => x >= 75, None => false })
            || (match f.abuseipdb_score { Some(x) => x >= 50, None => false })
            || (match f.risk_score { Some(x) => x >= 75, None => false }),
    ensures
        conclusions(f, lang).contains(lang.text("高欺诈/滥用风险"@, "High fraud/abuse risk"@)),
        !conclusions(f, lang).contains(lang.text("未见明显风险"@, "No obvious risk detected"@)),
        !conclusions(f, lang).contains(lang.text("数据不足,无法判定"@, "Insufficient data for a verdict"@)),
{
    let risk = lang.text("高欺诈/滥用风险"@, "High fraud/abuse risk"@);
    let a = when(f.is_tor == Some(true), lang.text("⚠ Tor 出口节点"@, "⚠ Tor exit node"@))
        + when(f.is_vpn == Some(true), lang.text("⚠ 检测到 VPN"@, "⚠ VPN detected"@))
        + when(f.is_proxy == Some(true), lang.text("⚠ 检测到代理"@, "⚠ Proxy detected"@))
        + type_line(f.ip_type, lang)
        + when(f.is_abuser == Some(true), lang.text("存在历史滥用记录"@, "Has prior abuse reports"@))
        + when(low_trust(f), lang.text("纯净度偏低(<40)"@, "Low purity score (<40)"@));
    assert(high_fraud(f));
    assert(!no_flags(f));
    assert(findings(f, lang) =~= a + seq![risk]);
    assert(findings(f, lang)[a.len() as int] == risk);
    assert(conclusions(f, lang) == findings(f, lang));
    lemma_findings_avoid(f, lang);
}

} // verus!
