//! Mail-server reachability: the providers, protocols and ports tried, and
//! the Markdown section of the results (the connection attempts themselves
//! are made outside this library).

use vstd::prelude::*;
use crate::i18n::Lang;
use crate::text::{owned, push_text};
use crate::render::table::{
    boxed_table, boxed_table_text, cells_view, plain_rows, row_view, texts, add_row, CellText, TableColor,
};

verus! {

/// Ports tried, one column each: SMTP relay (25), SMTPS (465), SMTP
/// submission (587), POP3 (110), POP3S (995), IMAP (143) and IMAPS (993).
pub const PORTS: [u16; 7] = [25, 465, 587, 110, 995, 143, 993];

pub open spec fn ports_spec() -> Seq<u16> {
    seq![25u16, 465u16, 587u16, 110u16, 995u16, 143u16, 993u16]
}

/// Whether one port accepted a connection.
#[derive(Debug, Clone, Copy)]
pub struct PortStatus {
    pub port: u16,
    pub open: bool,
}

/// The ports of one provider; `host` is its SMTP host.
#[derive(Debug)]
pub struct MailResult {
    pub provider: String,
    pub host: String,
    pub ports: Vec<PortStatus>,
}

/// The providers: name, SMTP host, POP3 host and IMAP host.
pub open spec fn targets_spec() -> Seq<(Seq<char>, Seq<char>, Seq<char>, Seq<char>)> {
    seq![
        ("Gmail"@, "smtp.gmail.com"@, "pop.gmail.com"@, "imap.gmail.com"@),
        ("Outlook"@, "smtp-mail.outlook.com"@, "outlook.office365.com"@, "outlook.office365.com"@),
        ("Office365"@, "smtp.office365.com"@, "outlook.office365.com"@, "outlook.office365.com"@),
        ("Yahoo"@, "smtp.mail.yahoo.com"@, "pop.mail.yahoo.com"@, "imap.mail.yahoo.com"@),
        ("Apple"@, "smtp.mail.me.com"@, "imap.mail.me.com"@, "imap.mail.me.com"@),
        ("QQ"@, "smtp.qq.com"@, "pop.qq.com"@, "imap.qq.com"@),
        ("163"@, "smtp.163.com"@, "pop.163.com"@, "imap.163.com"@),
        ("Sina"@, "smtp.sina.com"@, "pop.sina.com"@, "imap.sina.com"@),
        ("Sohu"@, "smtp.sohu.com"@, "pop3.sohu.com"@, "imap.sohu.com"@),
        ("Yandex"@, "smtp.yandex.com"@, "pop.yandex.com"@, "imap.yandex.com"@),
        ("Zoho"@, "smtp.zoho.com"@, "pop.zoho.com"@, "imap.zoho.com"@),
        ("GMX"@, "mail.gmx.com"@, "pop.gmx.com"@, "imap.gmx.com"@),
        ("MailRU"@, "smtp.mail.ru"@, "pop.mail.ru"@, "imap.mail.ru"@),
        ("AOL"@, "smtp.aol.com"@, "pop.aol.com"@, "imap.aol.com"@),
        ("FastMail"@, "smtp.fastmail.com"@, "pop.fastmail.com"@, "imap.fastmail.com"@)
    ]
}

/// The providers tried, with their SMTP, POP3 and IMAP hosts.
pub fn targets() -> (r: Vec<(&'static str, &'static str, &'static str, &'static str)>)
    ensures
        r@.map_values(|t: (&str, &str, &str, &str)| (t.0@, t.1@, t.2@, t.3@)) == targets_spec(),
{
    let r: Vec<(&'static str, &'static str, &'static str, &'static str)> = vec![
        ("Gmail", "smtp.gmail.com", "pop.gmail.com", "imap.gmail.com"),
        ("Outlook", "smtp-mail.outlook.com", "outlook.office365.com", "outlook.office365.com"),
        ("Office365", "smtp.office365.com", "outlook.office365.com", "outlook.office365.com"),
        ("Yahoo", "smtp.mail.yahoo.com", "pop.mail.yahoo.com", "imap.mail.yahoo.com"),
        ("Apple", "smtp.mail.me.com", "imap.mail.me.com", "imap.mail.me.com"),
        ("QQ", "smtp.qq.com", "pop.qq.com", "imap.qq.com"),
        ("163", "smtp.163.com", "pop.163.com", "imap.163.com"),
        ("Sina", "smtp.sina.com", "pop.sina.com", "imap.sina.com"),
        ("Sohu", "smtp.sohu.com", "pop3.sohu.com", "imap.sohu.com"),
        ("Yandex", "smtp.yandex.com", "pop.yandex.com", "imap.yandex.com"),
        ("Zoho", "smtp.zoho.com", "pop.zoho.com", "imap.zoho.com"),
        ("GMX", "mail.gmx.com", "pop.gmx.com", "imap.gmx.com"),
        ("MailRU", "smtp.mail.ru", "pop.mail.ru", "imap.mail.ru"),
        ("AOL", "smtp.aol.com", "pop.aol.com", "imap.aol.com"),
        ("FastMail", "smtp.fastmail.com", "pop.fastmail.com", "imap.fastmail.com"),
    ];
    assert(r@.map_values(|t: (&str, &str, &str, &str)| (t.0@, t.1@, t.2@, t.3@)) =~= targets_spec());
    r
}

/// The host a port is tried on: the SMTP host for 25, 465 and 587, the POP3
/// host for 110 and 995, the IMAP host otherwise.
pub open spec fn host_spec<T>(smtp: T, pop: T, imap: T, port: u16) -> T {
    if port == 25 || port == 465 || port == 587 {
        smtp
    } else if port == 110 || port == 995 {
        pop
    } else {
        imap
    }
}

pub fn host_for<'a>(smtp: &'a str, pop: &'a str, imap: &'a str, port: u16) -> (r: &'a str)
    ensures
        r == host_spec(smtp, pop, imap, port),
{
    if port == 25 || port == 465 || port == 587 {
        smtp
    } else if port == 110 || port == 995 {
        pop
    } else {
        imap
    }
}

/// The mark of a port: the first status for it, open `✓` or closed `✗`;
/// `—` where it was not tried.
pub open spec fn port_mark(ps: Seq<PortStatus>, port: u16) -> Seq<char>
    decreases ps.len(),
{
    if ps.len() == 0 {
        "—"@
    } else if ps[0].port == port {
        if ps[0].open { "✓"@ } else { "✗"@ }
    } else {
        port_mark(ps.drop_first(), port)
    }
}

/// `" | "` and the mark of each port, in order.
pub open spec fn port_marks(ps: Seq<PortStatus>, ports: Seq<u16>) -> Seq<char>
    decreases ports.len(),
{
    if ports.len() == 0 {
        Seq::empty()
    } else {
        port_marks(ps, ports.drop_last()) + " | "@ + port_mark(ps, ports.last())
    }
}

pub open spec fn mail_row(r: MailResult) -> Seq<char> {
    "| "@ + r.provider@ + port_marks(r.ports@, ports_spec()) + " |\n"@
}

pub open spec fn mail_rows(rs: Seq<MailResult>) -> Seq<char>
    decreases rs.len(),
{
    if rs.len() == 0 { Seq::empty() } else { mail_rows(rs.drop_last()) + mail_row(rs.last()) }
}

pub open spec fn mail_head(lang: Lang) -> Seq<char> {
    "## "@ + lang.text("邮局连通性(SMTP/POP3/IMAP)"@, "Mail connectivity (SMTP/POP3/IMAP)"@) + "\n"@ + "\n"@
        + "| "@ + lang.text("邮局"@, "Provider"@) + COLUMNS@ + "|---|---|---|---|---|---|---|---|\n"@
}

/// The port columns of the table head.
pub const COLUMNS: &'static str = " | SMTP 25 | SMTPS 465 | SMTP 587 | POP3 110 | POP3S 995 | IMAP 143 | IMAPS 993 |\n";

fn mark(ps: &Vec<PortStatus>, port: u16) -> (r: &'static str)
    ensures
        r@ == port_mark(ps@, port),
{
    let mut i: usize = 0;
    assert(ps@.skip(0) =~= ps@);
    while i < ps.len()
        invariant
            i <= ps@.len(),
            port_mark(ps@, port) == port_mark(ps@.skip(i as int), port),
        decreases ps.len() - i,
    {
        assert(ps@.skip(i as int)[0] == ps@[i as int]);
        assert(ps@.skip(i as int).drop_first() =~= ps@.skip(i + 1));
        if ps[i].port == port {
            return if ps[i].open { "✓" } else { "✗" };
        }
        i += 1;
    }
    "—"
}

/// The results as a Markdown table: one row per provider with the marks of
/// every port of `PORTS`, in that order.
pub fn render_section(results: &[MailResult], lang: Lang) -> (out: String)
    ensures
        out@ == mail_head(lang) + mail_rows(results@),
{
    let mut out = String::new();
    push_text(&mut out, "## ");
    push_text(&mut out, lang.pick("邮局连通性(SMTP/POP3/IMAP)", "Mail connectivity (SMTP/POP3/IMAP)"));
    push_text(&mut out, "\n");
    push_text(&mut out, "\n");
    push_text(&mut out, "| ");
    push_text(&mut out, lang.pick("邮局", "Provider"));
    push_text(&mut out, COLUMNS);
    push_text(&mut out, "|---|---|---|---|---|---|---|---|\n");
    assert(out@ =~= mail_head(lang));
    let ghost head = out@;
    let mut i: usize = 0;
    while i < results.len()
        invariant
            i <= results@.len(),
            out@ == head + mail_rows(results@.take(i as int)),
        decreases results.len() - i,
    {
        assert(results@.take(i + 1).drop_last() =~= results@.take(i as int));
        let ghost before = out@;
        let r = &results[i];
        push_text(&mut out, "| ");
        push_text(&mut out, r.provider.as_str());
        let ghost mid = out@;
        let mut j: usize = 0;
        while j < 7
            invariant
                j <= 7,
                out@ == mid + port_marks(r.ports@, ports_spec().take(j as int)),
            decreases 7 - j,
        {
            assert(ports_spec().take(j + 1).drop_last() =~= ports_spec().take(j as int));
            assert(ports_spec().take(j + 1).last() == PORTS[j as int]);
            push_text(&mut out, " | ");
            push_text(&mut out, mark(&r.ports, PORTS[j]));
            j += 1;
        }
        assert(ports_spec().take(7) =~= ports_spec());
        push_text(&mut out, " |\n");
        assert(out@ =~= before + mail_row(*r));
        i += 1;
    }
    assert(results@.take(results@.len() as int) =~= results@);
    out
}

/// Terminal colour of a port's mark: open green, closed red, none where the
/// port was not tried or colours are off.
pub open spec fn mark_color(ps: Seq<PortStatus>, port: u16, no_color: bool) -> Option<TableColor> {
    if no_color {
        None
    } else if port_mark(ps, port) == "✓"@ {
        Some(TableColor::Green)
    } else if port_mark(ps, port) == "✗"@ {
        Some(TableColor::Red)
    } else {
        None
    }
}

/// The cells of the given ports, in order: each port's mark and colour.
pub open spec fn port_cells(ps: Seq<PortStatus>, ports: Seq<u16>, no_color: bool) -> Seq<(Seq<char>, Option<TableColor>)>
    decreases ports.len(),
{
    if ports.len() == 0 {
        Seq::empty()
    } else {
        port_cells(ps, ports.drop_last(), no_color).push((port_mark(ps, ports.last()), mark_color(ps, ports.last(), no_color)))
    }
}

/// One provider's row: its name, then a cell per port column.
pub open spec fn mail_cells(r: MailResult, no_color: bool) -> Seq<(Seq<char>, Option<TableColor>)> {
    seq![(r.provider@, None::<TableColor>)] + port_cells(r.ports@, ports_spec(), no_color)
}

pub open spec fn mail_header(lang: Lang) -> Seq<Seq<char>> {
    seq![
        lang.text("邮局"@, "Provider"@), "SMTP 25"@, "SMTPS 465"@, "SMTP 587"@, "POP3 110"@, "POP3S 995"@, "IMAP 143"@,
        "IMAPS 993"@
    ]
}

/// The terminal section: title, then the boxed table of providers by ports.
pub open spec fn mail_terminal_text(rs: Seq<MailResult>, lang: Lang, no_color: bool, codes: bool) -> Seq<char> {
    "═══ "@ + lang.text("邮局连通性(SMTP/POP3/IMAP)"@, "Mail connectivity (SMTP/POP3/IMAP)"@) + " ═══\n"@
        + boxed_table_text(mail_header(lang), rs.map_values(|r: MailResult| mail_cells(r, no_color)), codes) + "\n"@
}

proof fn lemma_port_cells_plain(ps: Seq<PortStatus>, ports: Seq<u16>)
    ensures
        forall|j: int| 0 <= j < port_cells(ps, ports, true).len() ==> (#[trigger] port_cells(ps, ports, true)[j]).1 is None,
        port_cells(ps, ports, true).len() == ports.len(),
    decreases ports.len(),
{
    if ports.len() > 0 {
        lemma_port_cells_plain(ps, ports.drop_last());
    }
}

/// With colours off no cell of the mail table is coloured.
proof fn lemma_mail_rows_plain(rs: Seq<MailResult>)
    ensures
        plain_rows(rs.map_values(|r: MailResult| mail_cells(r, true))),
{
    let b = rs.map_values(|r: MailResult| mail_cells(r, true));
    assert forall|i: int, j: int| 0 <= i < b.len() && 0 <= j < b[i].len() implies (#[trigger] b[i][j]).1 is None by {
        assert(b[i] == mail_cells(rs[i], true));
        lemma_port_cells_plain(rs[i].ports@, ports_spec());
        if j > 0 {
            assert(b[i][j] == port_cells(rs[i].ports@, ports_spec(), true)[j - 1]);
        }
    }
}

fn mark_colour(ps: &Vec<PortStatus>, port: u16, no_color: bool) -> (c: CellText)
    ensures
        c.0@ == port_mark(ps@, port),
        c.1 == mark_color(ps@, port, no_color),
{
    let m = mark(ps, port);
    proof {
        reveal_strlit("✓");
        reveal_strlit("✗");
        reveal_strlit("—");
        lemma_mark_of_state(ps@, port);
        assert("✓"@[0] != "✗"@[0]);
        assert("✓"@[0] != "—"@[0]);
        assert("✗"@[0] != "—"@[0]);
    }
    let open = port_open(ps, port);
    let colour = if no_color {
        None
    } else {
        match open {
            Some(true) => Some(TableColor::Green),
            Some(false) => Some(TableColor::Red),
            None => None,
        }
    };
    (owned(m), colour)
}

/// The first status for a port: whether it was open; `None` where it was not tried.
pub open spec fn port_state(ps: Seq<PortStatus>, port: u16) -> Option<bool>
    decreases ps.len(),
{
    if ps.len() == 0 {
        None
    } else if ps[0].port == port {
        Some(ps[0].open)
    } else {
        port_state(ps.drop_first(), port)
    }
}

proof fn lemma_mark_of_state(ps: Seq<PortStatus>, port: u16)
    ensures
        port_mark(ps, port) == (match port_state(ps, port) { Some(true) => "✓"@, Some(false) => "✗"@, None => "—"@ }),
    decreases ps.len(),
{
    if ps.len() > 0 && ps[0].port != port {
        lemma_mark_of_state(ps.drop_first(), port);
    }
}

fn port_open(ps: &Vec<PortStatus>, port: u16) -> (r: Option<bool>)
    ensures
        r == port_state(ps@, port),
{
    let mut i: usize = 0;
    assert(ps@.skip(0) =~= ps@);
    while i < ps.len()
        invariant
            i <= ps@.len(),
            port_state(ps@, port) == port_state(ps@.skip(i as int), port),
        decreases ps.len() - i,
    {
        assert(ps@.skip(i as int).drop_first() =~= ps@.skip(i + 1));
        if ps[i].port == port {
            return Some(ps[i].open);
        }
        i += 1;
    }
    None
}

fn mail_row_cells(r: &MailResult, no_color: bool) -> (row: Vec<CellText>)
    ensures
        row_view(row) == mail_cells(*r, no_color),
{
    let mut row: Vec<CellText> = vec![(r.provider.clone(), None)];
    let mut j: usize = 0;
    while j < 7
        invariant
            j <= 7,
            row_view(row) == seq![(r.provider@, None::<TableColor>)] + port_cells(r.ports@, ports_spec().take(j as int), no_color),
        decreases 7 - j,
    {
        assert(ports_spec().take(j + 1).drop_last() =~= ports_spec().take(j as int));
        assert(ports_spec().take(j + 1).last() == PORTS[j as int]);
        let c = mark_colour(&r.ports, PORTS[j], no_color);
        let ghost before = row;
        row.push(c);
        assert(row_view(row) =~= row_view(before).push((c.0@, c.1)));
        assert(row_view(row) =~= seq![(r.provider@, None::<TableColor>)] + port_cells(r.ports@, ports_spec().take(j + 1), no_color));
        j += 1;
    }
    assert(ports_spec().take(7) =~= ports_spec());
    row
}

/// The terminal section (see `mail_terminal_text`): with or without the
/// table's colour codes, and without them where colours are off.
pub fn render_terminal(results: &[MailResult], lang: Lang, no_color: bool) -> (out: String)
    ensures
        out@ == mail_terminal_text(results@, lang, no_color, true)
            || out@ == mail_terminal_text(results@, lang, no_color, false),
        no_color ==> out@ == mail_terminal_text(results@, lang, no_color, false),
{
    let mut rows: Vec<Vec<CellText>> = Vec::new();
    let mut i: usize = 0;
    while i < results.len()
        invariant
            i <= results@.len(),
            cells_view(rows@) == results@.take(i as int).map_values(|r: MailResult| mail_cells(r, no_color)),
        decreases results.len() - i,
    {
        add_row(&mut rows, mail_row_cells(&results[i], no_color));
        assert(results@.take(i + 1).map_values(|r: MailResult| mail_cells(r, no_color))
            =~= results@.take(i as int).map_values(|r: MailResult| mail_cells(r, no_color))
                .push(mail_cells(results@[i as int], no_color)));
        i += 1;
    }
    assert(results@.take(results@.len() as int) =~= results@);
    let mut out = owned("═══ ");
    push_text(&mut out, lang.pick("邮局连通性(SMTP/POP3/IMAP)", "Mail connectivity (SMTP/POP3/IMAP)"));
    push_text(&mut out, " ═══\n");
    let header: Vec<String> = vec![
        owned(lang.pick("邮局", "Provider")), owned("SMTP 25"), owned("SMTPS 465"), owned("SMTP 587"), owned("POP3 110"),
        owned("POP3S 995"), owned("IMAP 143"), owned("IMAPS 993"),
    ];
    assert(texts(header@) =~= mail_header(lang));
    proof {
        if no_color {
            lemma_mail_rows_plain(results@);
        }
    }
    let t = boxed_table(&header, &rows);
    push_text(&mut out, t.as_str());
    push_text(&mut out, "\n");
    proof {
        let c = t@ != boxed_table_text(texts(header@), cells_view(rows@), false);
        assert(out@ =~= mail_terminal_text(results@, lang, no_color, c));
    }
    out
}

} // verus!
