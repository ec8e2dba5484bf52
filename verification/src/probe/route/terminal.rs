//! The return-route check's terminal section: a boxed overview table with the
//! line grade coloured, a hint where traces were degraded, and each trace's
//! hop table.

use vstd::prelude::*;
use crate::i18n::Lang;
use crate::probe::route::{
    asn_text, degraded_text, loc_text, push_addr, push_asn, push_loc, push_rtt, rtt_text, Grade, Hop, RouteResult,
};
use crate::render::table::{
    add_row, boxed_table, boxed_table_text, cells_view, plain_rows, row_view, texts, CellText, TableColor,
};
use crate::text::{dec_text, owned, push_text, uint_text};

verus! {

/// Terminal colour of a grade: boutique magenta, premium green, standard
/// yellow, unknown dark grey.
pub open spec fn grade_color(g: Grade) -> TableColor {
    match g {
        Grade::Boutique => TableColor::Magenta,
        Grade::Premium => TableColor::Green,
        Grade::Standard => TableColor::Yellow,
        Grade::Unknown => TableColor::DarkGrey,
    }
}

pub fn color_of_grade(g: Grade) -> (c: TableColor)
    ensures
        c == grade_color(g),
{
    match g {
        Grade::Boutique => TableColor::Magenta,
        Grade::Premium => TableColor::Green,
        Grade::Standard => TableColor::Yellow,
        Grade::Unknown => TableColor::DarkGrey,
    }
}

pub open spec fn plain(s: Seq<char>) -> (Seq<char>, Option<TableColor>) {
    (s, None)
}

/// Overview row of one route: carrier, target; for a degraded trace dashes
/// around the reason (`need_privilege` in words), otherwise entry line,
/// return line, grade (coloured unless colours are off) and hop count.
pub open spec fn route_row_spec(r: RouteResult, lang: Lang, no_color: bool) -> Seq<(Seq<char>, Option<TableColor>)> {
    let target = r.target_name@ + " "@ + r.target.text();
    match r.degraded {
        Some(reason) => seq![
            plain(r.carrier.label_text(lang)), plain(target), plain("—"@), plain(degraded_text(reason@, lang)),
            plain("—"@), plain("—"@)
        ],
        None => seq![
            plain(r.carrier.label_text(lang)), plain(target), plain(r.entry.label_text(lang)),
            plain(r.line.label_text(lang)),
            (r.grade.label_text(lang), if no_color { None } else { Some(grade_color(r.grade)) }),
            plain(dec_text(r.hops@.len()))
        ],
    }
}

pub open spec fn route_rows_spec(rs: Seq<RouteResult>, lang: Lang, no_color: bool) -> Seq<Seq<(Seq<char>, Option<TableColor>)>> {
    rs.map_values(|r: RouteResult| route_row_spec(r, lang, no_color))
}

pub open spec fn route_header(lang: Lang) -> Seq<Seq<char>> {
    seq![
        lang.text("运营商"@, "Carrier"@), lang.text("目标节点"@, "Target"@), lang.text("入境线"@, "Entry"@),
        lang.text("回程线路"@, "Return line"@), lang.text("质量"@, "Quality"@), lang.text("跳数"@, "Hops"@)
    ]
}

/// Hop row: TTL, address (`*` where none answered), round-trip time, AS and
/// organisation, location.
pub open spec fn hop_cells(h: Hop) -> Seq<(Seq<char>, Option<TableColor>)> {
    seq![
        plain(dec_text(h.ttl as nat)),
        plain(match h.addr { Some(a) => a.text(), None => "*"@ }),
        plain(rtt_text(h.rtt_us)),
        plain(asn_text(h.asn) + " "@ + (match h.as_org { Some(o) => o@, None => Seq::empty() })),
        plain(loc_text(crate::probe::opt_view(h.country), crate::probe::opt_view(h.city)))
    ]
}

pub open spec fn hop_header(lang: Lang) -> Seq<Seq<char>> {
    seq!["#"@, "IP"@, "RTT"@, "AS"@, lang.text("归属"@, "Location"@)]
}

/// Hop table of a trace that ran and has hops; nothing otherwise.
pub open spec fn hop_block(r: RouteResult, lang: Lang) -> Seq<char> {
    if r.degraded is Some || r.hops@.len() == 0 {
        Seq::empty()
    } else {
        "\n"@ + r.carrier.label_text(lang) + " "@ + r.target_name@ + " "@ + r.target.text() + "\n"@
            + boxed_table_text(hop_header(lang), r.hops@.map_values(|h: Hop| hop_cells(h)), false) + "\n"@
    }
}

pub open spec fn hop_blocks(rs: Seq<RouteResult>, lang: Lang) -> Seq<char>
    decreases rs.len(),
{
    if rs.len() == 0 { Seq::empty() } else { hop_blocks(rs.drop_last(), lang) + hop_block(rs.last(), lang) }
}

pub open spec fn degraded_hint(rs: Seq<RouteResult>, lang: Lang) -> Seq<char> {
    if exists|i: int| 0 <= i < rs.len() && (#[trigger] rs[i]).degraded is Some {
        lang.text(
            "部分目标因无特权已降级:用 `sudo ipano --route`,或先 `sudo setcap cap_net_raw+ep <二进制>` 一次后免 sudo"@,
            "Some targets degraded (no privilege): run `sudo ipano --route`, or `sudo setcap cap_net_raw+ep <binary>` once"@,
        ) + "\n"@
    } else {
        Seq::empty()
    }
}

/// The terminal route section: title, note, overview table, the hint where
/// some trace was degraded, then every hop table.
pub open spec fn route_terminal_text(rs: Seq<RouteResult>, lang: Lang, no_color: bool, codes: bool) -> Seq<char> {
    "═══ "@ + lang.text("三网回程路由(traceroute)"@, "China route (traceroute)"@) + " ═══\n"@
        + lang.text("启发式识别,仅供参考;需 root/cap_net_raw,无特权自动降级"@,
            "Heuristic; for reference only. Needs root/cap_net_raw, auto-degrades otherwise"@) + "\n"@
        + boxed_table_text(route_header(lang), route_rows_spec(rs, lang, no_color), codes) + "\n"@
        + degraded_hint(rs, lang) + hop_blocks(rs, lang)
}

/// No hop cell is coloured.
proof fn lemma_hop_rows_plain(hs: Seq<Hop>)
    ensures
        plain_rows(hs.map_values(|h: Hop| hop_cells(h))),
{
    let b = hs.map_values(|h: Hop| hop_cells(h));
    assert forall|i: int, j: int| 0 <= i < b.len() && 0 <= j < b[i].len() implies (#[trigger] b[i][j]).1 is None by {
        assert(b[i] == hop_cells(hs[i]));
    }
}

/// With colours off no cell of the overview is coloured.
proof fn lemma_route_rows_plain(rs: Seq<RouteResult>, lang: Lang)
    ensures
        plain_rows(route_rows_spec(rs, lang, true)),
{
    let b = route_rows_spec(rs, lang, true);
    assert forall|i: int, j: int| 0 <= i < b.len() && 0 <= j < b[i].len() implies (#[trigger] b[i][j]).1 is None by {
        assert(b[i] == route_row_spec(rs[i], lang, true));
    }
}

fn cell(s: String) -> (c: CellText)
    ensures
        (c.0@, c.1) == plain(s@),
{
    (s, None)
}

fn text_of_target(r: &RouteResult) -> (s: String)
    ensures
        s@ == r.target_name@ + " "@ + r.target.text(),
{
    let mut s = r.target_name.clone();
    push_text(&mut s, " ");
    push_text(&mut s, r.target.to_text().as_str());
    s
}

/// One route's overview row (see `route_row_spec`).
pub fn route_row(r: &RouteResult, lang: Lang, no_color: bool) -> (row: Vec<CellText>)
    ensures
        row_view(row) == route_row_spec(*r, lang, no_color),
{
    let row: Vec<CellText> = match &r.degraded {
        Some(reason) => {
            let mut why = String::new();
            super::push_reason(&mut why, reason, lang);
            vec![
                cell(owned(r.carrier.label(lang))), cell(text_of_target(r)), cell(owned("—")), cell(why),
                cell(owned("—")), cell(owned("—")),
            ]
        },
        None => {
            let color = if no_color { None } else { Some(color_of_grade(r.grade)) };
            vec![
                cell(owned(r.carrier.label(lang))), cell(text_of_target(r)), cell(owned(r.entry.label(lang))),
                cell(owned(r.line.label(lang))), (owned(r.grade.label(lang)), color),
                cell(uint_text(r.hops.len() as u64)),
            ]
        },
    };
    assert(row_view(row) =~= route_row_spec(*r, lang, no_color));
    row
}

/// The overview rows, one per route (see `route_row_spec`).
pub fn route_rows(routes: &[RouteResult], lang: Lang, no_color: bool) -> (rows: Vec<Vec<CellText>>)
    ensures
        cells_view(rows@) == route_rows_spec(routes@, lang, no_color),
{
    let mut rows: Vec<Vec<CellText>> = Vec::new();
    let mut i: usize = 0;
    while i < routes.len()
        invariant
            i <= routes@.len(),
            cells_view(rows@) == route_rows_spec(routes@.take(i as int), lang, no_color),
        decreases routes.len() - i,
    {
        add_row(&mut rows, route_row(&routes[i], lang, no_color));
        assert(route_rows_spec(routes@.take(i + 1), lang, no_color)
            =~= route_rows_spec(routes@.take(i as int), lang, no_color).push(route_row_spec(routes@[i as int], lang, no_color)));
        i += 1;
    }
    assert(routes@.take(routes@.len() as int) =~= routes@);
    rows
}

fn hop_row_cells(h: &Hop) -> (row: Vec<CellText>)
    ensures
        row_view(row) == hop_cells(*h),
{
    let mut ip = String::new();
    push_addr(&mut ip, h.addr);
    let mut rtt = String::new();
    push_rtt(&mut rtt, h.rtt_us);
    let mut asn = String::new();
    push_asn(&mut asn, h.asn);
    push_text(&mut asn, " ");
    match &h.as_org {
        Some(o) => push_text(&mut asn, o.as_str()),
        None => {},
    }
    let mut loc = String::new();
    push_loc(&mut loc, &h.country, &h.city);
    let row: Vec<CellText> = vec![cell(uint_text(h.ttl as u64)), cell(ip), cell(rtt), cell(asn), cell(loc)];
    assert(row_view(row) =~= hop_cells(*h));
    row
}

fn hop_header_exec(lang: Lang) -> (h: Vec<String>)
    ensures
        texts(h@) == hop_header(lang),
{
    let h: Vec<String> = vec![owned("#"), owned("IP"), owned("RTT"), owned("AS"), owned(lang.pick("归属", "Location"))];
    assert(texts(h@) =~= hop_header(lang));
    h
}

fn push_hop_block(out: &mut String, r: &RouteResult, lang: Lang)
    ensures
        final(out)@ == old(out)@ + hop_block(*r, lang),
{
    if r.degraded.is_some() || r.hops.len() == 0 {
        return;
    }
    let mut rows: Vec<Vec<CellText>> = Vec::new();
    let mut i: usize = 0;
    while i < r.hops.len()
        invariant
            i <= r.hops@.len(),
            cells_view(rows@) == r.hops@.take(i as int).map_values(|h: Hop| hop_cells(h)),
        decreases r.hops.len() - i,
    {
        add_row(&mut rows, hop_row_cells(&r.hops[i]));
        assert(r.hops@.take(i + 1).map_values(|h: Hop| hop_cells(h))
            =~= r.hops@.take(i as int).map_values(|h: Hop| hop_cells(h)).push(hop_cells(r.hops@[i as int])));
        i += 1;
    }
    assert(r.hops@.take(r.hops@.len() as int) =~= r.hops@);
    push_text(out, "\n");
    push_text(out, r.carrier.label(lang));
    push_text(out, " ");
    push_text(out, text_of_target(r).as_str());
    push_text(out, "\n");
    proof {
        lemma_hop_rows_plain(r.hops@);
    }
    let t = boxed_table(&hop_header_exec(lang), &rows);
    push_text(out, t.as_str());
    push_text(out, "\n");
}

fn route_header_exec(lang: Lang) -> (h: Vec<String>)
    ensures
        texts(h@) == route_header(lang),
{
    let h: Vec<String> = vec![
        owned(lang.pick("运营商", "Carrier")), owned(lang.pick("目标节点", "Target")), owned(lang.pick("入境线", "Entry")),
        owned(lang.pick("回程线路", "Return line")), owned(lang.pick("质量", "Quality")), owned(lang.pick("跳数", "Hops")),
    ];
    assert(texts(h@) =~= route_header(lang));
    h
}

/// The terminal route section (see `route_terminal_text`): with or without
/// the overview's colour codes, and without them where colours are off.
pub fn render_terminal(routes: &[RouteResult], lang: Lang, no_color: bool) -> (out: String)
    ensures
        out@ == route_terminal_text(routes@, lang, no_color, true)
            || out@ == route_terminal_text(routes@, lang, no_color, false),
        no_color ==> out@ == route_terminal_text(routes@, lang, no_color, false),
{
    let mut out = owned("═══ ");
    push_text(&mut out, lang.pick("三网回程路由(traceroute)", "China route (traceroute)"));
    push_text(&mut out, " ═══\n");
    push_text(&mut out, lang.pick("启发式识别,仅供参考;需 root/cap_net_raw,无特权自动降级",
        "Heuristic; for reference only. Needs root/cap_net_raw, auto-degrades otherwise"));
    push_text(&mut out, "\n");
    proof {
        if no_color {
            lemma_route_rows_plain(routes@, lang);
        }
    }
    let t = boxed_table(&route_header_exec(lang), &route_rows(routes, lang, no_color));
    let ghost c = t@ != boxed_table_text(route_header(lang), route_rows_spec(routes@, lang, no_color), false);
    push_text(&mut out, t.as_str());
    push_text(&mut out, "\n");
    let mut any = false;
    let mut k: usize = 0;
    while k < routes.len()
        invariant
            k <= routes@.len(),
            any == exists|i: int| 0 <= i < k && (#[trigger] routes@[i]).degraded is Some,
        decreases routes.len() - k,
    {
        if routes[k].degraded.is_some() {
            any = true;
        }
        k += 1;
    }
    if any {
        push_text(&mut out, lang.pick(
            "部分目标因无特权已降级:用 `sudo ipano --route`,或先 `sudo setcap cap_net_raw+ep <二进制>` 一次后免 sudo",
            "Some targets degraded (no privilege): run `sudo ipano --route`, or `sudo setcap cap_net_raw+ep <binary>` once"));
        push_text(&mut out, "\n");
    }
    let ghost base = out@;
    let mut j: usize = 0;
    while j < routes.len()
        invariant
            j <= routes@.len(),
            out@ == base + hop_blocks(routes@.take(j as int), lang),
        decreases routes.len() - j,
    {
        assert(routes@.take(j + 1).drop_last() =~= routes@.take(j as int));
        push_hop_block(&mut out, &routes[j], lang);
        j += 1;
    }
    assert(routes@.take(routes@.len() as int) =~= routes@);
    assert(out@ =~= route_terminal_text(routes@, lang, no_color, c));
    out
}

} // verus!
