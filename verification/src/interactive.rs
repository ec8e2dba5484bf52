//! The interactive menu: reading a selection, applying it to the options,
//! deciding when to show the menu, and the menu's text.

use vstd::prelude::*;
use crate::cli::Args;
use crate::i18n::Lang;
use crate::text::{chars_of, is_text, owned, push_text, split_commas, split_exec, string_of, trim, trim_chars};

verus! {

/// A part of the report the menu can add.
#[derive(Debug, PartialEq, Eq, Clone, Copy, Structural)]
pub enum Section {
    Raw,
    Probe,
    Mail,
    Route,
    Dnsbl,
    Speedtest,
}

/// What a menu answer asks for.
#[derive(Debug, PartialEq, Eq)]
pub enum Action {
    /// Run the report with these extra sections.
    Run(Vec<Section>),
    SetIp,
    Quit,
    /// Ask again, showing this message.
    Reprompt(String),
}

/// Plain form of an `Action`.
pub ghost enum ActionV {
    Run(Seq<Section>),
    SetIp,
    Quit,
    Reprompt(Seq<char>),
}

impl View for Action {
    type V = ActionV;

    open spec fn view(&self) -> ActionV {
        match self {
            Action::Run(v) => ActionV::Run(v@),
            Action::SetIp => ActionV::SetIp,
            Action::Quit => ActionV::Quit,
            Action::Reprompt(s) => ActionV::Reprompt(s@),
        }
    }
}

/// A menu item number: `Ok(None)` for an empty item or `1` (the report
/// itself), `Ok(Some(..))` for `2`..`7`, `Err` for anything else.
pub open spec fn item(seg: Seq<char>) -> Result<Option<Section>, ()> {
    let t = trim(seg);
    if t.len() == 0 || t == "1"@ {
        Ok(None)
    } else if t == "2"@ {
        Ok(Some(Section::Raw))
    } else if t == "3"@ {
        Ok(Some(Section::Probe))
    } else if t == "4"@ {
        Ok(Some(Section::Mail))
    } else if t == "5"@ {
        Ok(Some(Section::Route))
    } else if t == "6"@ {
        Ok(Some(Section::Dnsbl))
    } else if t == "7"@ {
        Ok(Some(Section::Speedtest))
    } else {
        Err(())
    }
}

/// The sections the items select, each once, in the order first named;
/// `None` where an item is not a menu number.
pub open spec fn selected(segs: Seq<Seq<char>>) -> Option<Seq<Section>>
    decreases segs.len(),
{
    if segs.len() == 0 {
        Some(Seq::empty())
    } else {
        match selected(segs.drop_last()) {
            None => None,
            Some(acc) => match item(segs.last()) {
                Err(_) => None,
                Ok(None) => Some(acc),
                Ok(Some(x)) => Some(if acc.contains(x) { acc } else { acc.push(x) }),
            },
        }
    }
}

/// Meaning of a menu answer.
pub open spec fn action_of(raw: Seq<char>) -> ActionV {
    let s = trim(raw);
    if s.len() == 0 || s == "1"@ {
        ActionV::Run(Seq::empty())
    } else if s == "A"@ || s == "a"@ {
        ActionV::Run(seq![Section::Raw, Section::Probe, Section::Mail, Section::Route, Section::Dnsbl])
    } else if s == "I"@ || s == "i"@ {
        ActionV::SetIp
    } else if s == "Q"@ || s == "q"@ {
        ActionV::Quit
    } else {
        match selected(split_commas(s)) {
            Some(x) => ActionV::Run(x),
            None => ActionV::Reprompt("无效输入: "@ + raw),
        }
    }
}

fn item_exec(seg: &[char]) -> (r: Result<Option<Section>, ()>)
    ensures
        r == item(seg@),
{
    let t = trim_chars(seg);
    let t = t.as_slice();
    if t.len() == 0 || is_text(t, "1") {
        Ok(None)
    } else if is_text(t, "2") {
        Ok(Some(Section::Raw))
    } else if is_text(t, "3") {
        Ok(Some(Section::Probe))
    } else if is_text(t, "4") {
        Ok(Some(Section::Mail))
    } else if is_text(t, "5") {
        Ok(Some(Section::Route))
    } else if is_text(t, "6") {
        Ok(Some(Section::Dnsbl))
    } else if is_text(t, "7") {
        Ok(Some(Section::Speedtest))
    } else {
        Err(())
    }
}

fn contains_section(v: &Vec<Section>, x: Section) -> (r: bool)
    ensures
        r == v@.contains(x),
{
    let mut i: usize = 0;
    while i < v.len()
        invariant
            i <= v@.len(),
            forall|j: int| 0 <= j < i ==> v@[j] != x,
        decreases v.len() - i,
    {
        if v[i] == x {
            return true;
        }
        i += 1;
    }
    false
}

/// The sections the comma-separated items select (see `selected`).
fn selected_exec(segs: &Vec<Vec<char>>) -> (r: Option<Vec<Section>>)
    ensures
        match r {
            Some(v) => selected(segs@.map_values(|p: Vec<char>| p@)) == Some(v@),
            None => selected(segs@.map_values(|p: Vec<char>| p@)) is None,
        },
{
    let ghost ss = segs@.map_values(|p: Vec<char>| p@);
    let mut acc: Vec<Section> = Vec::new();
    let mut i: usize = 0;
    while i < segs.len()
        invariant
            i <= segs@.len(),
            ss == segs@.map_values(|p: Vec<char>| p@),
            selected(ss.take(i as int)) == Some(acc@),
        decreases segs.len() - i,
    {
        assert(ss.take(i + 1).drop_last() =~= ss.take(i as int));
        assert(ss.take(i + 1).last() == segs@[i as int]@);
        match item_exec(segs[i].as_slice()) {
            Err(_) => {
                proof {
                    lemma_selected_none_stays(ss, (i + 1) as int);
                }
                return None;
            },
            Ok(None) => {},
            Ok(Some(x)) => {
                if !contains_section(&acc, x) {
                    acc.push(x);
                }
            },
        }
        i += 1;
    }
    assert(ss.take(segs@.len() as int) =~= ss);
    Some(acc)
}

proof fn lemma_selected_none_stays(ss: Seq<Seq<char>>, k: int)
    requires
        0 <= k <= ss.len(),
        selected(ss.take(k)) is None,
    ensures
        selected(ss) is None,
    decreases ss.len() - k,
{
    if k < ss.len() {
        assert(ss.take(k + 1).drop_last() =~= ss.take(k));
        lemma_selected_none_stays(ss, k + 1);
    } else {
        assert(ss.take(k) =~= ss);
    }
}

proof fn lemma_selected_distinct(segs: Seq<Seq<char>>)
    ensures
        selected(segs) matches Some(v) ==> v.no_duplicates(),
    decreases segs.len(),
{
    if segs.len() > 0 {
        lemma_selected_distinct(segs.drop_last());
        match selected(segs.drop_last()) {
            Some(acc) => match item(segs.last()) {
                Ok(Some(x)) => {
                    if !acc.contains(x) {
                        let w = acc.push(x);
                        assert forall|i: int, j: int| 0 <= i < w.len() && 0 <= j < w.len() && i != j implies w[i] != w[j] by {
                            if i == acc.len() {
                                assert(acc.contains(w[j]));
                            } else if j == acc.len() {
                                assert(acc.contains(w[i]));
                            }
                        }
                    }
                },
                _ => {},
            },
            None => {},
        }
    }
}

/// A menu answer that runs the report names each section at most once, and
/// the run-everything answer leaves the speed test out.
pub proof fn lemma_menu_sections(raw: Seq<char>)
    ensures
        action_of(raw) matches ActionV::Run(v) ==> v.no_duplicates(),
        (trim(raw) == "A"@ || trim(raw) == "a"@) ==> (action_of(raw) matches ActionV::Run(v) && !v.contains(Section::Speedtest)),
{
    let s = trim(raw);
    lemma_selected_distinct(split_commas(s));
    let all = seq![Section::Raw, Section::Probe, Section::Mail, Section::Route, Section::Dnsbl];
    assert(all.no_duplicates()) by {
        assert forall|i: int, j: int| 0 <= i < all.len() && 0 <= j < all.len() && i != j implies all[i] != all[j] by {
            assert(all[0] == Section::Raw && all[1] == Section::Probe && all[2] == Section::Mail);
            assert(all[3] == Section::Route && all[4] == Section::Dnsbl);
        }
    }
    assert(!all.contains(Section::Speedtest)) by {
        assert forall|i: int| 0 <= i < all.len() implies all[i] != Section::Speedtest by {
            assert(all[0] == Section::Raw && all[1] == Section::Probe && all[2] == Section::Mail);
            assert(all[3] == Section::Route && all[4] == Section::Dnsbl);
        }
    }
    assert(Seq::<Section>::empty().no_duplicates());
}

/// Reads a menu answer: empty or `1` runs the report alone; `A` adds every
/// section but the speed test; `I` sets the target; `Q` quits;
/// comma-separated numbers `2`..`7` add those sections (each once, in the
/// order first named); anything else asks again.
pub fn parse_input(raw: &str) -> (a: Action)
    ensures
        a@ == action_of(raw@),
{
    let cs = chars_of(raw);
    let s = trim_chars(cs.as_slice());
    let s = s.as_slice();
    if s.len() == 0 || is_text(s, "1") {
        return Action::Run(Vec::new());
    }
    if is_text(s, "A") || is_text(s, "a") {
        let v: Vec<Section> = vec![Section::Raw, Section::Probe, Section::Mail, Section::Route, Section::Dnsbl];
        assert(v@ =~= seq![Section::Raw, Section::Probe, Section::Mail, Section::Route, Section::Dnsbl]);
        return Action::Run(v);
    }
    if is_text(s, "I") || is_text(s, "i") {
        return Action::SetIp;
    }
    if is_text(s, "Q") || is_text(s, "q") {
        return Action::Quit;
    }
    let segs = split_exec(s);
    match selected_exec(&segs) {
        Some(v) => Action::Run(v),
        None => {
            let mut m = owned("无效输入: ");
            push_text(&mut m, raw);
            Action::Reprompt(m)
        },
    }
}

/// Clears every section flag of `args`, then sets those of `sections`
/// (a selected speed test runs the default selection).
pub fn apply_sections(args: &mut Args, sections: &[Section])
    ensures
        final(args).raw == sections@.contains(Section::Raw),
        final(args).probe == sections@.contains(Section::Probe),
        final(args).mail == sections@.contains(Section::Mail),
        final(args).route == sections@.contains(Section::Route),
        final(args).dnsbl == sections@.contains(Section::Dnsbl),
        sections@.contains(Section::Speedtest) ==> (final(args).speedtest matches Some(s) && s@.len() == 0),
        !sections@.contains(Section::Speedtest) ==> final(args).speedtest is None,
        final(args).ip == old(args).ip,
        final(args).four == old(args).four,
        final(args).six == old(args).six,
        final(args).json == old(args).json,
        final(args).markdown == old(args).markdown,
        final(args).lang == old(args).lang,
        final(args).all == old(args).all,
        final(args).ping0_token == old(args).ping0_token,
        final(args).no_color == old(args).no_color,
        final(args).timeout == old(args).timeout,
        final(args).report == old(args).report,
{
    args.raw = false;
    args.probe = false;
    args.mail = false;
    args.route = false;
    args.dnsbl = false;
    args.speedtest = None;
    let mut i: usize = 0;
    while i < sections.len()
        invariant
            i <= sections@.len(),
            args.raw == sections@.take(i as int).contains(Section::Raw),
            args.probe == sections@.take(i as int).contains(Section::Probe),
            args.mail == sections@.take(i as int).contains(Section::Mail),
            args.route == sections@.take(i as int).contains(Section::Route),
            args.dnsbl == sections@.take(i as int).contains(Section::Dnsbl),
            sections@.take(i as int).contains(Section::Speedtest) ==> (args.speedtest matches Some(s) && s@.len() == 0),
            !sections@.take(i as int).contains(Section::Speedtest) ==> args.speedtest is None,
            args.ip == old(args).ip,
            args.four == old(args).four,
            args.six == old(args).six,
            args.json == old(args).json,
            args.markdown == old(args).markdown,
            args.lang == old(args).lang,
            args.all == old(args).all,
            args.ping0_token == old(args).ping0_token,
            args.no_color == old(args).no_color,
            args.timeout == old(args).timeout,
            args.report == old(args).report,
        decreases sections.len() - i,
    {
        let ghost t = sections@.take(i as int);
        assert(sections@.take(i + 1) =~= t.push(sections@[i as int]));
        assert forall|x: Section| sections@.take(i + 1).contains(x) <==> (t.contains(x) || x == sections@[i as int]) by {
            if sections@.take(i + 1).contains(x) {
                let j = choose|j: int| 0 <= j < i + 1 && #[trigger] sections@.take(i + 1)[j] == x;
                if j < i {
                    assert(t[j] == x);
                }
            }
            if t.contains(x) {
                let j = choose|j: int| 0 <= j < i && #[trigger] t[j] == x;
                assert(sections@.take(i + 1)[j] == x);
            }
            if x == sections@[i as int] {
                assert(sections@.take(i + 1)[i as int] == x);
            }
        }
        match sections[i] {
            Section::Raw => args.raw = true,
            Section::Probe => args.probe = true,
            Section::Mail => args.mail = true,
            Section::Route => args.route = true,
            Section::Dnsbl => args.dnsbl = true,
            Section::Speedtest => args.speedtest = Some(String::new()),
        }
        i += 1;
    }
    assert(sections@.take(sections@.len() as int) =~= sections@);
}

/// The menu is shown on a terminal when no address, output format, check,
/// speed test, `--all` or `--report` was asked for.
pub fn should_enter_menu(args: &Args, is_tty: bool) -> (r: bool)
    ensures
        r == (is_tty && args.ip is None && !args.json && !args.markdown && !args.raw && !args.probe && !args.mail
            && !args.route && !args.dnsbl && args.speedtest is None && !args.all && !args.report),
{
    is_tty && args.ip.is_none() && !args.json && !args.markdown && !args.raw && !args.probe && !args.mail
        && !args.route && !args.dnsbl && args.speedtest.is_none() && !args.all && !args.report
}

/// The target typed at the prompt: `None` (local egress) where the line is
/// blank, else the line without surrounding whitespace.
pub fn target_input(line: &str) -> (r: Option<String>)
    ensures
        match r {
            None => trim(line@).len() == 0,
            Some(t) => trim(line@).len() > 0 && t@ == trim(line@),
        },
{
    let cs = chars_of(line);
    let t = trim_chars(cs.as_slice());
    if t.len() == 0 {
        None
    } else {
        Some(string_of(t.as_slice()))
    }
}

#[verifier::opaque]
pub open spec fn menu_head(target: Seq<char>, lang: Lang) -> Seq<char> {
    "\n═══ "@ + lang.text("ipano 交互菜单"@, "ipano interactive menu"@) + " ═══\n"@
        + lang.text("目标"@, "Target"@) + ": "@ + target + "\n\n"@
}

#[verifier::opaque]
pub open spec fn menu_items(lang: Lang) -> Seq<char> {
    "1. "@ + lang.text("仅 IP 全景报告"@, "IP panorama report only"@) + "\n"@
        + "2. "@ + lang.text("逐源质量详表"@, "Raw source details"@) + "\n"@
        + "3. "@ + lang.text("解锁检测 38 项"@, "Unlock probes (38 checks)"@) + "\n"@
        + "4. "@ + lang.text("邮局连通"@, "Mail connectivity"@) + "\n"@
        + "5. "@ + lang.text("三网回程路由"@, "CN backhaul routes"@) + "\n"@
        + "6. "@ + lang.text("DNSBL 黑名单"@, "DNSBL blocklists"@) + "\n"@
        + "7. "@ + lang.text("多节点测速(耗流量)"@, "Multi-node speedtest (uses traffic)"@) + "\n"@
}

#[verifier::opaque]
pub open spec fn menu_tail(lang: Lang) -> Seq<char> {
    "A. "@ + lang.text("全跑(不含测速)"@, "Run all except speedtest"@) + "\n"@
        + "I. "@ + lang.text("修改目标 IP"@, "Set target IP"@) + "\n"@
        + "Q. "@ + lang.text("退出"@, "Quit"@) + "\n"@ + "\n"@
        + lang.text("请输入编号(可逗号多选): "@, "Select items (comma-separated): "@)
}

/// The menu's target line text: the address, or the local egress.
pub open spec fn target_text(target: Option<Seq<char>>, lang: Lang) -> Seq<char> {
    match target {
        Some(t) => t,
        None => lang.text("本机出口"@, "Local egress"@),
    }
}

/// The menu text.
pub open spec fn menu_text(target: Option<Seq<char>>, lang: Lang) -> Seq<char> {
    menu_head(target_text(target, lang), lang) + menu_items(lang) + menu_tail(lang)
}

fn push_menu_head(out: &mut String, target: &str, lang: Lang)
    ensures
        final(out)@ == old(out)@ + menu_head(target@, lang),
{
    reveal(menu_head);
    let ghost start = out@;
    push_text(out, "\n═══ ");
    push_text(out, lang.pick("ipano 交互菜单", "ipano interactive menu"));
    push_text(out, " ═══\n");
    push_text(out, lang.pick("目标", "Target"));
    push_text(out, ": ");
    push_text(out, target);
    push_text(out, "\n\n");
    assert(out@ =~= start + menu_head(target@, lang));
}

fn push_item(out: &mut String, key: &str, text: &str)
    ensures
        final(out)@ == old(out)@ + key@ + text@ + "\n"@,
{
    let ghost start = out@;
    push_text(out, key);
    push_text(out, text);
    push_text(out, "\n");
    assert(out@ =~= start + key@ + text@ + "\n"@);
}

fn push_menu_items(out: &mut String, lang: Lang)
    ensures
        final(out)@ == old(out)@ + menu_items(lang),
{
    reveal(menu_items);
    let ghost start = out@;
    push_item(out, "1. ", lang.pick("仅 IP 全景报告", "IP panorama report only"));
    push_item(out, "2. ", lang.pick("逐源质量详表", "Raw source details"));
    push_item(out, "3. ", lang.pick("解锁检测 38 项", "Unlock probes (38 checks)"));
    push_item(out, "4. ", lang.pick("邮局连通", "Mail connectivity"));
    push_item(out, "5. ", lang.pick("三网回程路由", "CN backhaul routes"));
    push_item(out, "6. ", lang.pick("DNSBL 黑名单", "DNSBL blocklists"));
    push_item(out, "7. ", lang.pick("多节点测速(耗流量)", "Multi-node speedtest (uses traffic)"));
    assert(out@ =~= start + menu_items(lang));
}

fn push_menu_tail(out: &mut String, lang: Lang)
    ensures
        final(out)@ == old(out)@ + menu_tail(lang),
{
    reveal(menu_tail);
    let ghost start = out@;
    push_item(out, "A. ", lang.pick("全跑(不含测速)", "Run all except speedtest"));
    push_item(out, "I. ", lang.pick("修改目标 IP", "Set target IP"));
    push_item(out, "Q. ", lang.pick("退出", "Quit"));
    push_text(out, "\n");
    push_text(out, lang.pick("请输入编号(可逗号多选): ", "Select items (comma-separated): "));
    assert(out@ =~= start + menu_tail(lang));
}

/// The menu: title, target (the given address, or the local egress), the
/// numbered items and the prompt.
pub fn render_menu(target: Option<&str>, lang: Lang) -> (out: String)
    ensures
        out@ == menu_text(match target { Some(t) => Some(t@), None => None }, lang),
{
    let mut out = String::new();
    let t: &str = match target {
        Some(t) => t,
        None => lang.pick("本机出口", "Local egress"),
    };
    push_menu_head(&mut out, t, lang);
    push_menu_items(&mut out, lang);
    push_menu_tail(&mut out, lang);
    assert(out@ =~= menu_text(match target { Some(t) => Some(t@), None => None }, lang));
    out
}

} // verus!
