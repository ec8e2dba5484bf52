//! Unlock probes: result model, Native/DNS classification and the report section.

use vstd::prelude::*;
use vstd::string::*;
use crate::i18n::Lang;
use crate::text::{chars_of, dec_text, eq_ignore_ascii_case, eq_ignore_case, owned, push_text, uint_text};
use crate::render::table::{add_row, boxed_table, boxed_table_text, cells_view, plain_rows, row_view, texts, CellText, TableColor};

pub mod unlock_util;
pub mod streaming;
pub mod ai;
pub mod web;
pub mod route;
pub mod speedtest;
pub mod dnsbl;
pub mod mail;
pub mod cdn;

verus! {

/// Outcome of one unlock probe.
#[derive(Debug, Clone, Copy, PartialEq, Eq, Structural)]
pub enum ProbeStatus {
    /// Fully available.
    Unlocked,
    /// Partly available (e.g. only the provider's own titles).
    Restricted,
    /// Blocked or unavailable.
    Blocked,
    /// The probe failed; no verdict.
    Unknown,
}

/// How the content is reached: natively by the probe's IP, or through DNS redirection.
#[derive(Debug, Clone, Copy, PartialEq, Eq, Structural)]
pub enum UnlockType {
    /// The probe's country and the content's region agree.
    Native,
    /// They differ, yet the content is reachable.
    Dns,
    /// No region to compare with.
    Unknown,
}

/// Result of one probe.
#[derive(Debug, Clone)]
pub struct ProbeResult {
    pub name: String,
    pub status: ProbeStatus,
    pub region: Option<String>,
    pub unlock_type: UnlockType,
    pub info: Option<String>,
}

/// `Option<String>` seen as an optional char sequence.
pub open spec fn opt_view(o: Option<String>) -> Option<Seq<char>> {
    match o {
        Some(s) => Some(s@),
        None => None,
    }
}

/// A copy of an optional text.
pub fn copy_opt(o: &Option<String>) -> (r: Option<String>)
    ensures
        r == *o,
{
    match o {
        Some(s) => Some(s.clone()),
        None => None,
    }
}

impl ProbeResult {
    /// A field-by-field copy.
    pub fn copy(&self) -> (r: ProbeResult)
        ensures
            r == *self,
    {
        ProbeResult {
            name: self.name.clone(),
            status: self.status,
            region: copy_opt(&self.region),
            unlock_type: self.unlock_type,
            info: copy_opt(&self.info),
        }
    }

    /// The result has the given name, status and region, an unknown unlock type and no info.
    pub open spec fn is_plain(self, name: Seq<char>, status: ProbeStatus, region: Option<Seq<char>>) -> bool {
        &&& self.name@ == name
        &&& self.status == status
        &&& opt_view(self.region) == region
        &&& self.unlock_type == UnlockType::Unknown
        &&& self.info is None
    }

    pub fn new(name: &str, status: ProbeStatus, region: Option<String>) -> (r: ProbeResult)
        ensures
            r.is_plain(name@, status, opt_view(region)),
    {
        ProbeResult { name: owned(name), status, region, unlock_type: UnlockType::Unknown, info: None }
    }

    pub fn unknown(name: &str) -> (r: ProbeResult)
        ensures
            r.is_plain(name@, ProbeStatus::Unknown, None),
    {
        ProbeResult::new(name, ProbeStatus::Unknown, None)
    }

    /// The same result carrying an extra note.
    pub fn with_info(self, info: &str) -> (r: ProbeResult)
        ensures
            r.name == self.name,
            r.status == self.status,
            r.region == self.region,
            r.unlock_type == self.unlock_type,
            r.info matches Some(i) && i@ == info@,
    {
        ProbeResult { info: Some(owned(info)), ..self }
    }
}

/// Probe country versus content region.
pub open spec fn native_dns_spec(probe_country: Seq<char>, content_region: Option<Seq<char>>) -> UnlockType {
    match content_region {
        Some(r) => if eq_ignore_case(r, probe_country) { UnlockType::Native } else { UnlockType::Dns },
        None => UnlockType::Unknown,
    }
}

/// Native when the content region equals the probe's country (ASCII case ignored),
/// DNS when it differs, Unknown without a region.
pub fn classify_native_dns(probe_country: &str, content_region: Option<&str>) -> (t: UnlockType)
    ensures
        t == native_dns_spec(probe_country@, match content_region { Some(r) => Some(r@), None => None }),
{
    match content_region {
        Some(r) => {
            let rc = chars_of(r);
            let pc = chars_of(probe_country);
            if eq_ignore_ascii_case(rc.as_slice(), pc.as_slice()) {
                UnlockType::Native
            } else {
                UnlockType::Dns
            }
        }
        None => UnlockType::Unknown,
    }
}

/// The unlock type a result gets once the probe's country is known.
pub open spec fn checked_type(r: ProbeResult, probe_country: Seq<char>) -> UnlockType {
    if probe_country.len() != 0 && (r.status == ProbeStatus::Unlocked || r.status == ProbeStatus::Restricted) {
        native_dns_spec(probe_country, opt_view(r.region))
    } else {
        r.unlock_type
    }
}

/// Sets the Native/DNS type of every unlocked or restricted result; an empty
/// country leaves all results as they are.
pub fn apply_native_check(results: &mut Vec<ProbeResult>, probe_country: &str)
    ensures
        final(results)@.len() == old(results)@.len(),
        forall|i: int| 0 <= i < old(results)@.len() ==> {
            let (a, b) = (#[trigger] final(results)@[i], old(results)@[i]);
            &&& a.name == b.name
            &&& a.status == b.status
            &&& a.region == b.region
            &&& a.info == b.info
            &&& a.unlock_type == checked_type(b, probe_country@)
        },
{
    let n = results.len();
    if probe_country.is_empty() {
        return;
    }
    let mut i: usize = 0;
    while i < n
        invariant
            n == results@.len() == old(results)@.len(),
            i <= n,
            probe_country@.len() != 0,
            forall|j: int| 0 <= j < n ==> {
                let (a, b) = (#[trigger] results@[j], old(results)@[j]);
                &&& a.name == b.name
                &&& a.status == b.status
                &&& a.region == b.region
                &&& a.info == b.info
                &&& a.unlock_type == (if j < i { checked_type(b, probe_country@) } else { b.unlock_type })
            },
        decreases n - i,
    {
        let st = results[i].status;
        if st == ProbeStatus::Unlocked || st == ProbeStatus::Restricted {
            let t = match &results[i].region {
                Some(r) => classify_native_dns(probe_country, Some(r.as_str())),
                None => classify_native_dns(probe_country, None),
            };
            let mut item = results[i].copy();
            item.unlock_type = t;
            results.set(i, item);
        }
        i += 1;
    }
}

impl ProbeStatus {
    pub open spec fn label_text(self, lang: Lang) -> Seq<char> {
        match self {
            ProbeStatus::Unlocked => lang.text("✓ 解锁"@, "✓ Unlocked"@),
            ProbeStatus::Restricted => lang.text("◐ 部分"@, "◐ Restricted"@),
            ProbeStatus::Blocked => lang.text("✗ 封锁"@, "✗ Blocked"@),
            ProbeStatus::Unknown => lang.text("? 未知"@, "? Unknown"@),
        }
    }

    pub fn label(self, lang: Lang) -> (r: &'static str)
        ensures
            r@ == self.label_text(lang),
    {
        match self {
            ProbeStatus::Unlocked => lang.pick("✓ 解锁", "✓ Unlocked"),
            ProbeStatus::Restricted => lang.pick("◐ 部分", "◐ Restricted"),
            ProbeStatus::Blocked => lang.pick("✗ 封锁", "✗ Blocked"),
            ProbeStatus::Unknown => lang.pick("? 未知", "? Unknown"),
        }
    }
}

impl UnlockType {
    pub open spec fn label_text(self, lang: Lang) -> Seq<char> {
        match self {
            UnlockType::Native => lang.text("原生"@, "Native"@),
            UnlockType::Dns => "DNS"@,
            UnlockType::Unknown => "—"@,
        }
    }

    pub fn label(self, lang: Lang) -> (r: &'static str)
        ensures
            r@ == self.label_text(lang),
    {
        match self {
            UnlockType::Native => lang.pick("原生", "Native"),
            UnlockType::Dns => "DNS",
            UnlockType::Unknown => "—",
        }
    }
}

/// A present text, or a dash.
pub open spec fn or_dash(o: Option<Seq<char>>) -> Seq<char> {
    match o {
        Some(s) => s,
        None => "—"@,
    }
}

pub open spec fn probe_row(r: ProbeResult, lang: Lang) -> Seq<char> {
    "| "@ + r.name@ + " | "@ + r.status.label_text(lang) + " | "@ + or_dash(opt_view(r.region))
        + " | "@ + r.unlock_type.label_text(lang) + " |\n"@
}

pub open spec fn probe_rows(rs: Seq<ProbeResult>, lang: Lang) -> Seq<char>
    decreases rs.len(),
{
    if rs.len() == 0 {
        Seq::empty()
    } else {
        probe_rows(rs.drop_last(), lang) + probe_row(rs.last(), lang)
    }
}

pub open spec fn probe_section_head(lang: Lang) -> Seq<char> {
    "## "@ + lang.text("流媒体 & AI 解锁检测"@, "Streaming & AI unlock"@) + "\n\n"@
        + "| "@ + lang.text("服务"@, "Service"@) + " | "@ + lang.text("状态"@, "Status"@)
        + " | "@ + lang.text("地区"@, "Region"@) + " | "@ + lang.text("类型"@, "Type"@) + " |\n"@
        + "|---|---|---|---|\n"@
}

/// Markdown pipe table of the probe results, one row per result in order.
pub fn render_section(results: &[ProbeResult], lang: Lang) -> (out: String)
    ensures
        out@ == probe_section_head(lang) + probe_rows(results@, lang),
{
    let mut out = String::new();
    push_text(&mut out, "## ");
    push_text(&mut out, lang.pick("流媒体 & AI 解锁检测", "Streaming & AI unlock"));
    push_text(&mut out, "\n\n| ");
    push_text(&mut out, lang.pick("服务", "Service"));
    push_text(&mut out, " | ");
    push_text(&mut out, lang.pick("状态", "Status"));
    push_text(&mut out, " | ");
    push_text(&mut out, lang.pick("地区", "Region"));
    push_text(&mut out, " | ");
    push_text(&mut out, lang.pick("类型", "Type"));
    push_text(&mut out, " |\n|---|---|---|---|\n");
    proof {
        reveal_strlit("\n\n| ");
        reveal_strlit("\n\n");
        reveal_strlit("| ");
        reveal_strlit(" |\n|---|---|---|---|\n");
        reveal_strlit(" |\n");
        reveal_strlit("|---|---|---|---|\n");
        assert(out@ =~= probe_section_head(lang));
    }
    let ghost head = out@;
    let mut i: usize = 0;
    while i < results.len()
        invariant
            i <= results@.len(),
            head == probe_section_head(lang),
            out@ == head + probe_rows(results@.take(i as int), lang),
        decreases results.len() - i,
    {
        let r = &results[i];
        let ghost before = out@;
        push_text(&mut out, "| ");
        push_text(&mut out, r.name.as_str());
        push_text(&mut out, " | ");
        push_text(&mut out, r.status.label(lang));
        push_text(&mut out, " | ");
        match &r.region {
            Some(g) => push_text(&mut out, g.as_str()),
            None => push_text(&mut out, "—"),
        }
        push_text(&mut out, " | ");
        push_text(&mut out, r.unlock_type.label(lang));
        push_text(&mut out, " |\n");
        proof {
            assert(results@.take(i + 1).drop_last() =~= results@.take(i as int));
            assert(results@.take(i + 1).last() == results@[i as int]);
            assert(out@ =~= before + probe_row(results@[i as int], lang));
        }
        i += 1;
    }
    proof {
        assert(results@.take(results@.len() as int) =~= results@);
    }
    out
}

/// Terminal colour of a status: unlocked green, restricted yellow, blocked
/// red, unknown dark grey.
pub open spec fn status_color(s: ProbeStatus) -> TableColor {
    match s {
        ProbeStatus::Unlocked => TableColor::Green,
        ProbeStatus::Restricted => TableColor::Yellow,
        ProbeStatus::Blocked => TableColor::Red,
        ProbeStatus::Unknown => TableColor::DarkGrey,
    }
}

/// Terminal colour of an unlock type: native green, DNS yellow, none otherwise.
pub open spec fn type_color(t: UnlockType) -> Option<TableColor> {
    match t {
        UnlockType::Native => Some(TableColor::Green),
        UnlockType::Dns => Some(TableColor::Yellow),
        UnlockType::Unknown => None,
    }
}

/// One probe's row: service, status, region (dash where none) and type,
/// coloured unless colours are off.
pub open spec fn probe_cells(r: ProbeResult, lang: Lang, no_color: bool) -> Seq<(Seq<char>, Option<TableColor>)> {
    seq![
        (r.name@, None::<TableColor>),
        (r.status.label_text(lang), if no_color { None } else { Some(status_color(r.status)) }),
        (or_dash(opt_view(r.region)), None::<TableColor>),
        (r.unlock_type.label_text(lang), if no_color { None } else { type_color(r.unlock_type) })
    ]
}

pub open spec fn unlocked_count(rs: Seq<ProbeResult>) -> nat
    decreases rs.len(),
{
    if rs.len() == 0 { 0 } else { unlocked_count(rs.drop_last()) + (if rs.last().status == ProbeStatus::Unlocked { 1nat } else { 0nat }) }
}

pub open spec fn probe_header(lang: Lang) -> Seq<Seq<char>> {
    seq![lang.text("服务"@, "Service"@), lang.text("状态"@, "Status"@), lang.text("地区"@, "Region"@), lang.text("类型"@, "Type"@)]
}

/// The terminal section: title with unlocked/total, then the boxed table.
pub open spec fn probe_terminal_text(rs: Seq<ProbeResult>, lang: Lang, no_color: bool, codes: bool) -> Seq<char> {
    "═══ "@ + lang.text("流媒体 & AI 解锁检测"@, "Streaming & AI unlock"@) + " ("@ + dec_text(unlocked_count(rs)) + "/"@
        + dec_text(rs.len()) + ") ═══\n"@
        + boxed_table_text(probe_header(lang), rs.map_values(|r: ProbeResult| probe_cells(r, lang, no_color)), codes) + "\n"@
}

/// With colours off no cell of the probe table is coloured.
proof fn lemma_probe_rows_plain(rs: Seq<ProbeResult>, lang: Lang)
    ensures
        plain_rows(rs.map_values(|r: ProbeResult| probe_cells(r, lang, true))),
{
    let b = rs.map_values(|r: ProbeResult| probe_cells(r, lang, true));
    assert forall|i: int, j: int| 0 <= i < b.len() && 0 <= j < b[i].len() implies (#[trigger] b[i][j]).1 is None by {
        assert(b[i] == probe_cells(rs[i], lang, true));
    }
}

fn probe_row_cells(r: &ProbeResult, lang: Lang, no_color: bool) -> (row: Vec<CellText>)
    ensures
        row_view(row) == probe_cells(*r, lang, no_color),
{
    let sc = if no_color {
        None
    } else {
        Some(match r.status {
            ProbeStatus::Unlocked => TableColor::Green,
            ProbeStatus::Restricted => TableColor::Yellow,
            ProbeStatus::Blocked => TableColor::Red,
            ProbeStatus::Unknown => TableColor::DarkGrey,
        })
    };
    let tc = if no_color {
        None
    } else {
        match r.unlock_type {
            UnlockType::Native => Some(TableColor::Green),
            UnlockType::Dns => Some(TableColor::Yellow),
            UnlockType::Unknown => None,
        }
    };
    let region = match &r.region {
        Some(x) => x.clone(),
        None => owned("—"),
    };
    let row: Vec<CellText> = vec![
        (r.name.clone(), None), (owned(r.status.label(lang)), sc), (region, None), (owned(r.unlock_type.label(lang)), tc),
    ];
    assert(row_view(row) =~= probe_cells(*r, lang, no_color));
    row
}

/// The terminal section (see `probe_terminal_text`): with or without the
/// colour codes, and without them where colours are off.
pub fn render_terminal(results: &[ProbeResult], lang: Lang, no_color: bool) -> (out: String)
    ensures
        out@ == probe_terminal_text(results@, lang, no_color, true)
            || out@ == probe_terminal_text(results@, lang, no_color, false),
        no_color ==> out@ == probe_terminal_text(results@, lang, no_color, false),
{
    let mut rows: Vec<Vec<CellText>> = Vec::new();
    let mut unlocked: usize = 0;
    let mut i: usize = 0;
    while i < results.len()
        invariant
            i <= results@.len(),
            unlocked == unlocked_count(results@.take(i as int)),
            unlocked <= i,
            cells_view(rows@) == results@.take(i as int).map_values(|r: ProbeResult| probe_cells(r, lang, no_color)),
        decreases results.len() - i,
    {
        assert(results@.take(i + 1).drop_last() =~= results@.take(i as int));
        if results[i].status == ProbeStatus::Unlocked {
            unlocked += 1;
        }
        add_row(&mut rows, probe_row_cells(&results[i], lang, no_color));
        assert(results@.take(i + 1).map_values(|r: ProbeResult| probe_cells(r, lang, no_color))
            =~= results@.take(i as int).map_values(|r: ProbeResult| probe_cells(r, lang, no_color))
                .push(probe_cells(results@[i as int], lang, no_color)));
        i += 1;
    }
    assert(results@.take(results@.len() as int) =~= results@);
    let mut out = owned("═══ ");
    push_text(&mut out, lang.pick("流媒体 & AI 解锁检测", "Streaming & AI unlock"));
    push_text(&mut out, " (");
    push_text(&mut out, uint_text(unlocked as u64).as_str());
    push_text(&mut out, "/");
    push_text(&mut out, uint_text(results.len() as u64).as_str());
    push_text(&mut out, ") ═══\n");
    let header: Vec<String> = vec![
        owned(lang.pick("服务", "Service")), owned(lang.pick("状态", "Status")), owned(lang.pick("地区", "Region")),
        owned(lang.pick("类型", "Type")),
    ];
    assert(texts(header@) =~= probe_header(lang));
    proof {
        if no_color {
            lemma_probe_rows_plain(results@, lang);
        }
    }
    let ghost head = out@;
    let t = boxed_table(&header, &rows);
    push_text(&mut out, t.as_str());
    push_text(&mut out, "\n");
    proof {
        let c = t@ != boxed_table_text(probe_header(lang), cells_view(rows@), false);
        assert(out@ =~= probe_terminal_text(results@, lang, no_color, c));
    }
    out
}

} // verus!
