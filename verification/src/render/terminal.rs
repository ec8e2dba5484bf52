//! The terminal report: boxed tables of the basic fields and the risk
//! findings, the heuristic verdict and the sources' status.

use vstd::prelude::*;
use crate::aggregate::{status_views, MergedReport, SourceStatusV};
use crate::heuristics::{conclude, conclusions};
use crate::i18n::Lang;
use crate::model::{opt_text, IpType, SourceDataV};
use crate::probe::copy_opt;
use crate::render::table::{
    add_row, bold_spec, bold_text, boxed_table, boxed_table_text, cells_view, lemma_plain_rows_concat, plain_pair, plain_row,
    plain_rows, CellText, TableColor,
};
use crate::text::{dec_text, int_text, owned, push_text, sint_text, uint_text};

verus! {

/// The report has a risk table where any score, verdict, threat level,
/// traffic share, blocklist count or type is known, or a proxy, VPN, Tor,
/// abuse or cloud mark is set.
pub open spec fn shows_risk(f: SourceDataV) -> bool {
    f.trust_score is Some || f.risk_score is Some || f.rep_threat is Some || f.abuser_score is Some
        || f.ai_verdict is Some || f.fraud_score is Some || f.abuseipdb_score is Some || f.ipqs_score is Some
        || f.is_proxy == Some(true) || f.is_vpn == Some(true) || f.is_tor == Some(true)
        || f.is_abuser == Some(true) || f.ip_type is Some || f.blacklist_malicious is Some
        || f.human_traffic_pct is Some || f.threat_level is Some || f.is_cloud == Some(true)
}

/// `word` where `cond` holds.
pub open spec fn mark(cond: bool, word: Seq<char>) -> Seq<Seq<char>> {
    if cond { seq![word] } else { Seq::empty() }
}

/// The risk marks that apply, in display order.
#[verifier::opaque]
pub open spec fn mark_words(f: SourceDataV) -> Seq<Seq<char>> {
    mark(f.ip_type == Some(IpType::Hosting), "机房"@)
        + mark(f.ip_type == Some(IpType::Native), "原生"@)
        + mark(f.ip_type == Some(IpType::Residential), "家宽"@)
        + mark(f.ip_type == Some(IpType::Mobile), "移动"@)
        + mark(f.is_proxy == Some(true), "代理"@)
        + mark(f.is_vpn == Some(true), "VPN"@)
        + mark(f.is_tor == Some(true), "Tor"@)
        + mark(f.is_abuser == Some(true), "滥用史"@)
        + mark(f.is_crawler == Some(true), "爬虫"@)
        + mark(f.is_cloud == Some(true), "云"@)
        + mark(f.is_anonymous == Some(true), "匿名"@)
        + mark(f.is_bogon == Some(true), "Bogon"@)
}

/// Words separated by single spaces.
#[verifier::opaque]
pub open spec fn spaced(ws: Seq<Seq<char>>) -> Seq<char>
    decreases ws.len(),
{
    if ws.len() == 0 {
        Seq::empty()
    } else if ws.len() == 1 {
        ws[0]
    } else {
        spaced(ws.drop_last()) + " "@ + ws.last()
    }
}

/// The marks line: the marks separated by spaces, or a dash where none applies.
pub open spec fn marks_line(f: SourceDataV) -> Seq<char> {
    if mark_words(f).len() == 0 { "—"@ } else { spaced(mark_words(f)) }
}

/// Whether the report shows a risk table (see `shows_risk`).
pub fn has_risk(r: &MergedReport) -> (b: bool)
    ensures
        b == shows_risk(r.fields()),
{
    r.trust_score.is_some() || r.risk_score.is_some() || r.rep_threat.is_some() || r.abuser_score.is_some()
        || r.ai_verdict.is_some() || r.fraud_score.is_some() || r.abuseipdb_score.is_some()
        || r.ipqs_score.is_some() || matches!(r.is_proxy, Some(true)) || matches!(r.is_vpn, Some(true))
        || matches!(r.is_tor, Some(true)) || matches!(r.is_abuser, Some(true)) || r.ip_type.is_some()
        || r.blacklist_malicious.is_some() || r.human_traffic_pct.is_some() || r.threat_level.is_some()
        || matches!(r.is_cloud, Some(true))
}

fn add_mark(out: &mut String, cond: bool, word: &str, Ghost(ws): Ghost<Seq<Seq<char>>>)
    requires
        old(out)@ == spaced(ws),
        (old(out)@.len() == 0) == (ws.len() == 0),
        word@.len() > 0,
    ensures
        final(out)@ == spaced(ws + mark(cond, word@)),
        (final(out)@.len() == 0) == ((ws + mark(cond, word@)).len() == 0),
{
    reveal_with_fuel(spaced, 2);
    if cond {
        assert((ws + seq![word@]).drop_last() =~= ws);
        if !out.as_str().is_empty() {
            push_text(out, " ");
        } else {
            assert(old(out)@ =~= Seq::<char>::empty());
        }
        push_text(out, word);
    } else {
        assert(ws + Seq::<Seq<char>>::empty() =~= ws);
    }
}

/// The risk marks line (see `marks_line`).
#[verifier::spinoff_prover]
#[verifier::rlimit(80)]
pub fn risk_flags(r: &MergedReport) -> (s: String)
    ensures
        s@ == marks_line(r.fields()),
{
    let f = Ghost(r.fields());
    let mut out = String::new();
    let ghost w = Seq::<Seq<char>>::empty();
    assert(out@ == spaced(w)) by {
        reveal(spaced);
    }
    proof {
        reveal_strlit("机房");
    }
    add_mark(&mut out, matches!(r.ip_type, Some(IpType::Hosting)), "机房", Ghost(w));
    let ghost w = w + mark(f@.ip_type == Some(IpType::Hosting), "机房"@);
    proof {
        reveal_strlit("原生");
    }
    add_mark(&mut out, matches!(r.ip_type, Some(IpType::Native)), "原生", Ghost(w));
    let ghost w = w + mark(f@.ip_type == Some(IpType::Native), "原生"@);
    proof {
        reveal_strlit("家宽");
    }
    add_mark(&mut out, matches!(r.ip_type, Some(IpType::Residential)), "家宽", Ghost(w));
    let ghost w = w + mark(f@.ip_type == Some(IpType::Residential), "家宽"@);
    proof {
        reveal_strlit("移动");
    }
    add_mark(&mut out, matches!(r.ip_type, Some(IpType::Mobile)), "移动", Ghost(w));
    let ghost w = w + mark(f@.ip_type == Some(IpType::Mobile), "移动"@);
    proof {
        reveal_strlit("代理");
    }
    add_mark(&mut out, matches!(r.is_proxy, Some(true)), "代理", Ghost(w));
    let ghost w = w + mark(f@.is_proxy == Some(true), "代理"@);
    proof {
        reveal_strlit("VPN");
    }
    add_mark(&mut out, matches!(r.is_vpn, Some(true)), "VPN", Ghost(w));
    let ghost w = w + mark(f@.is_vpn == Some(true), "VPN"@);
    proof {
        reveal_strlit("Tor");
    }
    add_mark(&mut out, matches!(r.is_tor, Some(true)), "Tor", Ghost(w));
    let ghost w = w + mark(f@.is_tor == Some(true), "Tor"@);
    proof {
        reveal_strlit("滥用史");
    }
    add_mark(&mut out, matches!(r.is_abuser, Some(true)), "滥用史", Ghost(w));
    let ghost w = w + mark(f@.is_abuser == Some(true), "滥用史"@);
    proof {
        reveal_strlit("爬虫");
    }
    add_mark(&mut out, matches!(r.is_crawler, Some(true)), "爬虫", Ghost(w));
    let ghost w = w + mark(f@.is_crawler == Some(true), "爬虫"@);
    proof {
        reveal_strlit("云");
    }
    add_mark(&mut out, matches!(r.is_cloud, Some(true)), "云", Ghost(w));
    let ghost w = w + mark(f@.is_cloud == Some(true), "云"@);
    proof {
        reveal_strlit("匿名");
    }
    add_mark(&mut out, matches!(r.is_anonymous, Some(true)), "匿名", Ghost(w));
    let ghost w = w + mark(f@.is_anonymous == Some(true), "匿名"@);
    proof {
        reveal_strlit("Bogon");
    }
    add_mark(&mut out, matches!(r.is_bogon, Some(true)), "Bogon", Ghost(w));
    let ghost w = w + mark(f@.is_bogon == Some(true), "Bogon"@);
    assert(w =~= mark_words(f@)) by {
        reveal(mark_words);
    }
    if out.as_str().is_empty() {
        return crate::text::owned("—");
    }
    out
}


pub type Row = Seq<(Seq<char>, Option<TableColor>)>;

/// A text, or a dash where absent.
pub open spec fn dash(v: Option<Seq<char>>) -> Seq<char> {
    match v {
        Some(s) => s,
        None => "—"@,
    }
}

/// The basic fields table: ASN and organisation, place, coordinates, time
/// zone and reverse DNS.
pub open spec fn basic_rows(f: SourceDataV) -> Seq<Row> {
    seq![
        plain_row("ASN"@, (match f.asn { Some(a) => "AS"@ + dec_text(a as nat), None => "—"@ }) + " "@ + dash(f.as_org)),
        plain_row("归属"@, dash(f.country) + " "@ + dash(f.region) + " "@ + dash(f.city)),
        plain_row("经纬度"@, match (f.lat, f.lon) { (Some(a), Some(b)) => a + ","@ + b, _ => "—"@ }),
        plain_row("时区"@, dash(f.timezone)),
        plain_row("rDNS"@, dash(f.rdns))
    ]
}

/// A row where the value is present.
pub open spec fn opt_row(label: Seq<char>, v: Option<Seq<char>>) -> Seq<Row> {
    match v {
        Some(x) => seq![plain_row(label, x)],
        None => Seq::empty(),
    }
}

pub open spec fn int_opt(v: Option<i64>) -> Option<Seq<char>> {
    match v {
        Some(x) => Some(int_text(x as int)),
        None => None,
    }
}

/// The score rows: purity, risk, fraud, IPQS, AbuseIPDB, reputation threat.
pub open spec fn score_rows(f: SourceDataV) -> Seq<Row> {
    opt_row("纯净度(越高越干净)"@, int_opt(f.trust_score))
        + opt_row("风控值(越高越危险)"@, int_opt(f.risk_score))
        + opt_row("欺诈分(越高越危险)"@, int_opt(f.fraud_score))
        + opt_row("IPQS 欺诈分"@, int_opt(f.ipqs_score))
        + opt_row("AbuseIPDB 置信度"@, int_opt(f.abuseipdb_score))
        + opt_row("信誉威胁值"@, int_opt(f.rep_threat))
}

/// A blocklist count, zero where absent.
pub open spec fn count_text(v: Option<u32>) -> Seq<char> {
    dec_text(match v { Some(x) => x as nat, None => 0 })
}

/// The VirusTotal blocklist row, where a malicious or harmless count is known.
pub open spec fn vt_rows(f: SourceDataV) -> Seq<Row> {
    if f.blacklist_malicious is Some || f.blacklist_harmless is Some {
        seq![plain_row("VT 黑名单"@, count_text(f.blacklist_malicious) + " 恶意 / "@ + count_text(f.blacklist_suspicious)
            + " 可疑 / "@ + count_text(f.blacklist_harmless) + " 无害 / "@ + count_text(f.blacklist_undetected)
            + " 未检出"@)]
    } else {
        Seq::empty()
    }
}

/// The human/bot traffic row, where both shares are known.
pub open spec fn traffic_rows(f: SourceDataV) -> Seq<Row> {
    match (f.human_traffic_pct, f.bot_traffic_pct) {
        (Some(h), Some(b)) => seq![plain_row("人机流量(CF Radar)"@, "人类 "@ + h + "% / 机器人 "@ + b + "%"@)],
        _ => Seq::empty(),
    }
}

/// The AI verdict row: label, confidence in full-width brackets, reasoning.
pub open spec fn ai_rows(f: SourceDataV) -> Seq<Row> {
    match f.ai_verdict {
        Some(v) => seq![plain_row("AI 判定"@, v.label + "（"@ + int_text(v.confidence as int) + "%）"@ + v.reasoning)],
        None => Seq::empty(),
    }
}

/// Abuse score, threat level, blocklist and traffic rows.
pub open spec fn finding_rows(f: SourceDataV) -> Seq<Row> {
    opt_row("滥用评分"@, f.abuser_score) + opt_row("威胁等级"@, f.threat_level) + vt_rows(f) + traffic_rows(f)
}

/// The three distributions, the marks line and the AI verdict.
pub open spec fn profile_rows(f: SourceDataV) -> Seq<Row> {
    opt_row("浏览器分布(CF Radar)"@, f.browser_dist) + opt_row("系统分布(CF Radar)"@, f.os_dist)
        + opt_row("设备分布(CF Radar)"@, f.device_dist) + seq![plain_row("标记"@, marks_line(f))] + ai_rows(f)
}

/// The risk table: scores, then findings, then the profile rows.
pub open spec fn risk_rows(f: SourceDataV) -> Seq<Row> {
    score_rows(f) + finding_rows(f) + profile_rows(f)
}

fn add_opt(rows: &mut Vec<Vec<CellText>>, label: &str, v: Option<String>)
    ensures
        cells_view(final(rows)@) == cells_view(old(rows)@) + opt_row(label@, opt_text(v)),
{
    match v {
        Some(x) => {
            let ghost xv = x@;
            add_row(rows, plain_pair(label, x));
            assert(cells_view(old(rows)@).push(plain_row(label@, xv)) =~= cells_view(old(rows)@) + opt_row(label@, opt_text(v)));
        },
        None => {
            assert(cells_view(old(rows)@) + opt_row(label@, opt_text(v)) =~= cells_view(old(rows)@));
        },
    }
}

fn int_value(v: Option<i64>) -> (r: Option<String>)
    ensures
        opt_text(r) == int_opt(v),
{
    match v {
        Some(x) => Some(sint_text(x)),
        None => None,
    }
}

/// The basic fields table's rows.
pub fn basic_table_rows(r: &MergedReport) -> (rows: Vec<Vec<CellText>>)
    ensures
        cells_view(rows@) == basic_rows(r.fields()),
{
    let mut asn = match r.asn {
        Some(a) => {
            let mut t = owned("AS");
            push_text(&mut t, uint_text(a as u64).as_str());
            t
        },
        None => owned("—"),
    };
    push_text(&mut asn, " ");
    push_text(&mut asn, dash_text(&r.as_org).as_str());
    let mut place = dash_text(&r.country);
    push_text(&mut place, " ");
    push_text(&mut place, dash_text(&r.region).as_str());
    push_text(&mut place, " ");
    push_text(&mut place, dash_text(&r.city).as_str());
    let coords = match (&r.lat, &r.lon) {
        (Some(a), Some(b)) => {
            let mut t = a.clone();
            push_text(&mut t, ",");
            push_text(&mut t, b.as_str());
            t
        },
        _ => owned("—"),
    };
    let rows: Vec<Vec<CellText>> = vec![
        plain_pair("ASN", asn),
        plain_pair("归属", place),
        plain_pair("经纬度", coords),
        plain_pair("时区", dash_text(&r.timezone)),
        plain_pair("rDNS", dash_text(&r.rdns)),
    ];
    assert(cells_view(rows@) =~= basic_rows(r.fields()));
    rows
}

fn dash_text(v: &Option<String>) -> (s: String)
    ensures
        s@ == dash(opt_text(*v)),
{
    match v {
        Some(x) => x.clone(),
        None => owned("—"),
    }
}

fn score_table_rows(r: &MergedReport, rows: &mut Vec<Vec<CellText>>)
    ensures
        cells_view(final(rows)@) == cells_view(old(rows)@) + score_rows(r.fields()),
{
    let ghost f = r.fields();
    let ghost w0 = cells_view(rows@);
    add_opt(rows, "纯净度(越高越干净)", int_value(r.trust_score));
    add_opt(rows, "风控值(越高越危险)", int_value(r.risk_score));
    add_opt(rows, "欺诈分(越高越危险)", int_value(r.fraud_score));
    add_opt(rows, "IPQS 欺诈分", int_value(r.ipqs_score));
    add_opt(rows, "AbuseIPDB 置信度", int_value(r.abuseipdb_score));
    add_opt(rows, "信誉威胁值", int_value(r.rep_threat));
    assert(cells_view(rows@) =~= w0 + score_rows(f));
}

fn count_value(v: Option<u32>) -> (s: String)
    ensures
        s@ == count_text(v),
{
    match v {
        Some(x) => uint_text(x as u64),
        None => uint_text(0),
    }
}

fn vt_table_rows(r: &MergedReport, rows: &mut Vec<Vec<CellText>>)
    ensures
        cells_view(final(rows)@) == cells_view(old(rows)@) + vt_rows(r.fields()),
{
    if r.blacklist_malicious.is_some() || r.blacklist_harmless.is_some() {
        let mut t = count_value(r.blacklist_malicious);
        push_text(&mut t, " 恶意 / ");
        push_text(&mut t, count_value(r.blacklist_suspicious).as_str());
        push_text(&mut t, " 可疑 / ");
        push_text(&mut t, count_value(r.blacklist_harmless).as_str());
        push_text(&mut t, " 无害 / ");
        push_text(&mut t, count_value(r.blacklist_undetected).as_str());
        push_text(&mut t, " 未检出");
        let ghost tv = t@;
        add_row(rows, plain_pair("VT 黑名单", t));
        assert(cells_view(old(rows)@).push(plain_row("VT 黑名单"@, tv)) =~= cells_view(old(rows)@) + vt_rows(r.fields()));
    } else {
        assert(cells_view(old(rows)@) + vt_rows(r.fields()) =~= cells_view(old(rows)@));
    }
}

fn traffic_table_rows(r: &MergedReport, rows: &mut Vec<Vec<CellText>>)
    ensures
        cells_view(final(rows)@) == cells_view(old(rows)@) + traffic_rows(r.fields()),
{
    match (&r.human_traffic_pct, &r.bot_traffic_pct) {
        (Some(h), Some(b)) => {
            let mut t = owned("人类 ");
            push_text(&mut t, h.as_str());
            push_text(&mut t, "% / 机器人 ");
            push_text(&mut t, b.as_str());
            push_text(&mut t, "%");
            let ghost tv = t@;
            add_row(rows, plain_pair("人机流量(CF Radar)", t));
            assert(cells_view(old(rows)@).push(plain_row("人机流量(CF Radar)"@, tv))
                =~= cells_view(old(rows)@) + traffic_rows(r.fields()));
        },
        _ => {
            assert(cells_view(old(rows)@) + traffic_rows(r.fields()) =~= cells_view(old(rows)@));
        },
    }
}

fn ai_table_rows(r: &MergedReport, rows: &mut Vec<Vec<CellText>>)
    ensures
        cells_view(final(rows)@) == cells_view(old(rows)@) + ai_rows(r.fields()),
{
    match &r.ai_verdict {
        Some(v) => {
            let mut t = v.label.clone();
            push_text(&mut t, "（");
            push_text(&mut t, sint_text(v.confidence).as_str());
            push_text(&mut t, "%）");
            push_text(&mut t, v.reasoning.as_str());
            let ghost tv = t@;
            add_row(rows, plain_pair("AI 判定", t));
            assert(cells_view(old(rows)@).push(plain_row("AI 判定"@, tv)) =~= cells_view(old(rows)@) + ai_rows(r.fields()));
        },
        None => {
            assert(cells_view(old(rows)@) + ai_rows(r.fields()) =~= cells_view(old(rows)@));
        },
    }
}

fn finding_table_rows(r: &MergedReport, rows: &mut Vec<Vec<CellText>>)
    ensures
        cells_view(final(rows)@) == cells_view(old(rows)@) + finding_rows(r.fields()),
{
    let ghost w0 = cells_view(rows@);
    add_opt(rows, "滥用评分", copy_opt(&r.abuser_score));
    add_opt(rows, "威胁等级", copy_opt(&r.threat_level));
    vt_table_rows(r, rows);
    traffic_table_rows(r, rows);
    assert(cells_view(rows@) =~= w0 + finding_rows(r.fields()));
}

fn profile_table_rows(r: &MergedReport, rows: &mut Vec<Vec<CellText>>)
    ensures
        cells_view(final(rows)@) == cells_view(old(rows)@) + profile_rows(r.fields()),
{
    let ghost w0 = cells_view(rows@);
    add_opt(rows, "浏览器分布(CF Radar)", copy_opt(&r.browser_dist));
    add_opt(rows, "系统分布(CF Radar)", copy_opt(&r.os_dist));
    add_opt(rows, "设备分布(CF Radar)", copy_opt(&r.device_dist));
    let marks = risk_flags(r);
    add_row(rows, plain_pair("标记", marks));
    ai_table_rows(r, rows);
    assert(cells_view(rows@) =~= w0 + profile_rows(r.fields()));
}

/// The risk table's rows (see `risk_rows`).
pub fn risk_table_rows(r: &MergedReport) -> (rows: Vec<Vec<CellText>>)
    ensures
        cells_view(rows@) == risk_rows(r.fields()),
{
    let mut rows: Vec<Vec<CellText>> = Vec::new();
    assert(cells_view(rows@) =~= Seq::<Row>::empty());
    score_table_rows(r, &mut rows);
    finding_table_rows(r, &mut rows);
    profile_table_rows(r, &mut rows);
    assert(Seq::<Row>::empty() + score_rows(r.fields()) =~= score_rows(r.fields()));
    rows
}

/// A heading: bold unless colours are off.
pub open spec fn emphasis(s: Seq<char>, no_color: bool) -> Seq<char> {
    if no_color { s } else { bold_spec(s) }
}

/// `  • line` for every line.
pub open spec fn bullets(ls: Seq<Seq<char>>) -> Seq<char>
    decreases ls.len(),
{
    if ls.len() == 0 { Seq::empty() } else { bullets(ls.drop_last()) + "  • "@ + ls.last() + "\n"@ }
}

/// A source's status mark: `✓` or `✗` followed by its id.
pub open spec fn status_mark(st: SourceStatusV) -> Seq<char> {
    (if st.ok { "✓"@ } else { "✗"@ }) + st.id
}

/// The status marks, separated by single spaces.
pub open spec fn status_marks(ss: Seq<SourceStatusV>) -> Seq<char>
    decreases ss.len(),
{
    if ss.len() == 0 {
        Seq::empty()
    } else if ss.len() == 1 {
        status_mark(ss[0])
    } else {
        status_marks(ss.drop_last()) + " "@ + status_mark(ss.last())
    }
}

/// The title and the tables: the basic fields, and the risk findings where
/// `shows_risk` holds.
pub open spec fn report_tables(ip: Option<Seq<char>>, f: SourceDataV, no_color: bool) -> Seq<char> {
    emphasis("═══ IP 全景报告  "@ + (match ip { Some(i) => i, None => Seq::empty() }) + " ═══"@, no_color) + "\n"@
        + boxed_table_text(seq!["字段"@, "值"@], basic_rows(f), false) + "\n"@
        + (if shows_risk(f) { boxed_table_text(seq!["风险判定"@, "值"@], risk_rows(f), false) + "\n"@ } else { Seq::empty() })
}

/// The verdict section: its title, then each conclusion as a bullet.
#[verifier::opaque]
pub open spec fn verdict_text(f: SourceDataV, no_color: bool, lang: Lang) -> Seq<char> {
    emphasis(lang.text("启发式结论"@, "Heuristic verdict"@), no_color) + "\n"@ + bullets(conclusions(f, lang))
}

/// The sources' status line.
pub open spec fn status_line(ss: Seq<SourceStatusV>, lang: Lang) -> Seq<char> {
    lang.text("源状态"@, "Sources"@) + "  "@ + status_marks(ss) + "\n"@
}

/// The terminal report: the title, the basic fields table, the risk table
/// where `shows_risk` holds, the heuristic verdict's lines and the sources'
/// status line.
pub open spec fn terminal_report_text(
    ip: Option<Seq<char>>,
    f: SourceDataV,
    ss: Seq<SourceStatusV>,
    no_color: bool,
    lang: Lang,
) -> Seq<char> {
    report_tables(ip, f, no_color) + verdict_text(f, no_color, lang) + status_line(ss, lang)
}

fn push_emphasis(out: &mut String, s: &str, no_color: bool)
    ensures
        final(out)@ == old(out)@ + emphasis(s@, no_color),
{
    if no_color {
        push_text(out, s);
    } else {
        let b = bold_text(s);
        push_text(out, b.as_str());
    }
}

proof fn lemma_one_row_plain(a: Seq<char>, b: Seq<char>)
    ensures
        plain_rows(seq![plain_row(a, b)]),
{
    assert forall|i: int, j: int| 0 <= i < 1 && 0 <= j < seq![plain_row(a, b)][i].len()
        implies (#[trigger] seq![plain_row(a, b)][i][j]).1 is None by {
        assert(seq![plain_row(a, b)][i] == plain_row(a, b));
    }
}

proof fn lemma_opt_row_plain(label: Seq<char>, v: Option<Seq<char>>)
    ensures
        plain_rows(opt_row(label, v)),
{
    if let Some(x) = v {
        lemma_one_row_plain(label, x);
    }
}

/// Neither report table colours a cell.
proof fn lemma_report_rows_plain(f: SourceDataV)
    ensures
        plain_rows(basic_rows(f)),
        plain_rows(risk_rows(f)),
{
    let b = basic_rows(f);
    assert forall|i: int, j: int| 0 <= i < b.len() && 0 <= j < b[i].len() implies (#[trigger] b[i][j]).1 is None by {
        assert(b[i].len() == 2);
    }
    lemma_opt_row_plain("纯净度(越高越干净)"@, int_opt(f.trust_score));
    lemma_opt_row_plain("风控值(越高越危险)"@, int_opt(f.risk_score));
    lemma_opt_row_plain("欺诈分(越高越危险)"@, int_opt(f.fraud_score));
    lemma_opt_row_plain("IPQS 欺诈分"@, int_opt(f.ipqs_score));
    lemma_opt_row_plain("AbuseIPDB 置信度"@, int_opt(f.abuseipdb_score));
    lemma_opt_row_plain("信誉威胁值"@, int_opt(f.rep_threat));
    let s1 = opt_row("纯净度(越高越干净)"@, int_opt(f.trust_score));
    let s2 = s1 + opt_row("风控值(越高越危险)"@, int_opt(f.risk_score));
    let s3 = s2 + opt_row("欺诈分(越高越危险)"@, int_opt(f.fraud_score));
    let s4 = s3 + opt_row("IPQS 欺诈分"@, int_opt(f.ipqs_score));
    let s5 = s4 + opt_row("AbuseIPDB 置信度"@, int_opt(f.abuseipdb_score));
    lemma_plain_rows_concat(s1, opt_row("风控值(越高越危险)"@, int_opt(f.risk_score)));
    lemma_plain_rows_concat(s2, opt_row("欺诈分(越高越危险)"@, int_opt(f.fraud_score)));
    lemma_plain_rows_concat(s3, opt_row("IPQS 欺诈分"@, int_opt(f.ipqs_score)));
    lemma_plain_rows_concat(s4, opt_row("AbuseIPDB 置信度"@, int_opt(f.abuseipdb_score)));
    lemma_plain_rows_concat(s5, opt_row("信誉威胁值"@, int_opt(f.rep_threat)));
    lemma_opt_row_plain("滥用评分"@, f.abuser_score);
    lemma_opt_row_plain("威胁等级"@, f.threat_level);
    let vt = vt_rows(f);
    assert(plain_rows(vt)) by {
        if f.blacklist_malicious is Some || f.blacklist_harmless is Some {
            lemma_one_row_plain("VT 黑名单"@, count_text(f.blacklist_malicious) + " 恶意 / "@
                + count_text(f.blacklist_suspicious) + " 可疑 / "@ + count_text(f.blacklist_harmless) + " 无害 / "@
                + count_text(f.blacklist_undetected) + " 未检出"@);
        }
    }
    assert(plain_rows(traffic_rows(f))) by {
        if let (Some(h), Some(b)) = (f.human_traffic_pct, f.bot_traffic_pct) {
            lemma_one_row_plain("人机流量(CF Radar)"@, "人类 "@ + h + "% / 机器人 "@ + b + "%"@);
        }
    }
    let f1 = opt_row("滥用评分"@, f.abuser_score);
    let f2 = f1 + opt_row("威胁等级"@, f.threat_level);
    let f3 = f2 + vt;
    lemma_plain_rows_concat(f1, opt_row("威胁等级"@, f.threat_level));
    lemma_plain_rows_concat(f2, vt);
    lemma_plain_rows_concat(f3, traffic_rows(f));
    lemma_opt_row_plain("浏览器分布(CF Radar)"@, f.browser_dist);
    lemma_opt_row_plain("系统分布(CF Radar)"@, f.os_dist);
    lemma_opt_row_plain("设备分布(CF Radar)"@, f.device_dist);
    lemma_one_row_plain("标记"@, marks_line(f));
    assert(plain_rows(ai_rows(f))) by {
        if let Some(v) = f.ai_verdict {
            lemma_one_row_plain("AI 判定"@, v.label + "（"@ + int_text(v.confidence as int) + "%）"@ + v.reasoning);
        }
    }
    let p1 = opt_row("浏览器分布(CF Radar)"@, f.browser_dist);
    let p2 = p1 + opt_row("系统分布(CF Radar)"@, f.os_dist);
    let p3 = p2 + opt_row("设备分布(CF Radar)"@, f.device_dist);
    let p4 = p3 + seq![plain_row("标记"@, marks_line(f))];
    lemma_plain_rows_concat(p1, opt_row("系统分布(CF Radar)"@, f.os_dist));
    lemma_plain_rows_concat(p2, opt_row("设备分布(CF Radar)"@, f.device_dist));
    lemma_plain_rows_concat(p3, seq![plain_row("标记"@, marks_line(f))]);
    lemma_plain_rows_concat(p4, ai_rows(f));
    lemma_plain_rows_concat(score_rows(f), finding_rows(f));
    lemma_plain_rows_concat(score_rows(f) + finding_rows(f), profile_rows(f));
}

fn header_pair(a: &str, b: &str) -> (h: Vec<String>)
    ensures
        crate::render::table::texts(h@) == seq![a@, b@],
{
    let h: Vec<String> = vec![owned(a), owned(b)];
    assert(crate::render::table::texts(h@) =~= seq![a@, b@]);
    h
}

fn push_tables(out: &mut String, r: &MergedReport, no_color: bool)
    ensures
        final(out)@ == old(out)@ + report_tables(opt_text(r.ip), r.fields(), no_color),
{
    let mut title = owned("═══ IP 全景报告  ");
    match &r.ip {
        Some(i) => push_text(&mut title, i.as_str()),
        None => {},
    }
    push_text(&mut title, " ═══");
    push_emphasis(out, title.as_str(), no_color);
    push_text(out, "\n");
    proof {
        lemma_report_rows_plain(r.fields());
    }
    let basics = boxed_table(&header_pair("字段", "值"), &basic_table_rows(r));
    push_text(out, basics.as_str());
    push_text(out, "\n");
    if has_risk(r) {
        let risk = boxed_table(&header_pair("风险判定", "值"), &risk_table_rows(r));
        push_text(out, risk.as_str());
        push_text(out, "\n");
    }
}

fn push_bullets(out: &mut String, lines: &Vec<String>)
    ensures
        final(out)@ == old(out)@ + bullets(crate::heuristics::texts(lines@)),
{
    let ghost ls = crate::heuristics::texts(lines@);
    let ghost c = out@;
    let mut i: usize = 0;
    while i < lines.len()
        invariant
            i <= lines@.len(),
            ls == crate::heuristics::texts(lines@),
            out@ == c + bullets(ls.take(i as int)),
        decreases lines.len() - i,
    {
        assert(ls.take(i + 1).drop_last() =~= ls.take(i as int));
        assert(ls.take(i + 1).last() == lines@[i as int]@);
        push_text(out, "  • ");
        push_text(out, lines[i].as_str());
        push_text(out, "\n");
        i += 1;
    }
    assert(ls.take(lines@.len() as int) =~= ls);
}

fn push_verdict(out: &mut String, r: &MergedReport, no_color: bool, lang: Lang)
    ensures
        final(out)@ == old(out)@ + verdict_text(r.fields(), no_color, lang),
{
    push_emphasis(out, lang.pick("启发式结论", "Heuristic verdict"), no_color);
    push_text(out, "\n");
    let lines = conclude(r, lang);
    push_bullets(out, &lines);
    proof {
        reveal(verdict_text);
    }
}

fn push_status(out: &mut String, r: &MergedReport, lang: Lang)
    ensures
        final(out)@ == old(out)@ + status_line(status_views(r.sources@), lang),
{
    push_text(out, lang.pick("源状态", "Sources"));
    push_text(out, "  ");
    let ghost d = out@;
    let ghost ss = status_views(r.sources@);
    let mut j: usize = 0;
    while j < r.sources.len()
        invariant
            j <= r.sources@.len(),
            ss == status_views(r.sources@),
            out@ == d + status_marks(ss.take(j as int)),
        decreases r.sources.len() - j,
    {
        assert(ss.take(j + 1).drop_last() =~= ss.take(j as int));
        assert(ss.take(j + 1).last() == r.sources@[j as int]@);
        if j > 0 {
            push_text(out, " ");
        } else {
            assert(ss.take(1) =~= seq![ss[0]]);
        }
        let st = &r.sources[j];
        push_text(out, if st.ok { "✓" } else { "✗" });
        push_text(out, st.id.as_str());
        j += 1;
    }
    assert(ss.take(r.sources@.len() as int) =~= ss);
    push_text(out, "\n");
}

/// The terminal report (see `terminal_report_text`).
pub fn render(r: &MergedReport, no_color: bool, lang: Lang) -> (out: String)
    ensures
        out@ == terminal_report_text(opt_text(r.ip), r.fields(), status_views(r.sources@), no_color, lang),
{
    let mut out = String::new();
    push_tables(&mut out, r, no_color);
    push_verdict(&mut out, r, no_color, lang);
    push_status(&mut out, r, lang);
    assert(out@ =~= terminal_report_text(opt_text(r.ip), r.fields(), status_views(r.sources@), no_color, lang));
    out
}

} // verus!
