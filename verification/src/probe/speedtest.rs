//! Speed-test node catalog and selection: carriers, the built-in node list,
//! the `--speedtest` selection grammar, host lookup in the node-search answer,
//! and the catalog listing.

use vstd::prelude::*;
use crate::json::{field, get_field, parse_json, parsed_json, text_val, Json};
use crate::config::CustomNode;
use crate::probe::copy_opt;
use crate::text::{
    ascii_lower, chars_of, dec_text, eq_ignore_case, eq_ignore_ascii_case, is_text, owned, parse_u32_chars,
    parse_u32_spec, push_text, split_commas, split_exec, string_of, to_lower, trim, trim_chars, uint_text,
};

use crate::i18n::Lang;
use crate::render::table::{
    add_row, boxed_table, boxed_table_text, cells_view, lemma_plain_rows_concat, plain_rows, texts, CellText, TableColor,
};

verus! {

/// Carrier or region of a node.
#[derive(Debug, Clone, Copy, PartialEq, Eq, Structural)]
pub enum Carrier {
    Telecom,
    Unicom,
    Mobile,
    Edu,
    Hk,
    Us,
    Jp,
    Sg,
}

impl Carrier {
    pub open spec fn label_text(self) -> Seq<char> {
        match self {
            Carrier::Telecom => "电信"@,
            Carrier::Unicom => "联通"@,
            Carrier::Mobile => "移动"@,
            Carrier::Edu => "教育/广电"@,
            Carrier::Hk => "香港"@,
            Carrier::Us => "美国"@,
            Carrier::Jp => "日本"@,
            Carrier::Sg => "新加坡"@,
        }
    }

    /// Name shown in tables.
    pub fn label(self) -> (r: &'static str)
        ensures
            r@ == self.label_text(),
    {
        match self {
            Carrier::Telecom => "电信",
            Carrier::Unicom => "联通",
            Carrier::Mobile => "移动",
            Carrier::Edu => "教育/广电",
            Carrier::Hk => "香港",
            Carrier::Us => "美国",
            Carrier::Jp => "日本",
            Carrier::Sg => "新加坡",
        }
    }

    /// The carriers a group keyword stands for; `None` for other words.
    pub open spec fn group_spec(kw: Seq<char>) -> Option<Seq<Carrier>> {
        if kw == "ct"@ {
            Some(seq![Carrier::Telecom])
        } else if kw == "cu"@ {
            Some(seq![Carrier::Unicom])
        } else if kw == "cm"@ {
            Some(seq![Carrier::Mobile])
        } else if kw == "hk"@ {
            Some(seq![Carrier::Hk])
        } else if kw == "edu"@ {
            Some(seq![Carrier::Edu])
        } else if kw == "us"@ {
            Some(seq![Carrier::Us])
        } else if kw == "jp"@ {
            Some(seq![Carrier::Jp])
        } else if kw == "sg"@ {
            Some(seq![Carrier::Sg])
        } else if kw == "cn"@ {
            Some(seq![Carrier::Telecom, Carrier::Unicom, Carrier::Mobile])
        } else if kw == "intl"@ {
            Some(seq![Carrier::Us, Carrier::Jp, Carrier::Sg])
        } else {
            None
        }
    }

    /// Group keyword to carriers (`ct`, `cu`, `cm`, `hk`, `edu`, `us`, `jp`,
    /// `sg`, `cn` = the three mainland carriers, `intl` = US, Japan, Singapore).
    pub fn group(kw: &str) -> (r: Option<Vec<Carrier>>)
        ensures
            match r {
                Some(v) => Carrier::group_spec(kw@) == Some(v@),
                None => Carrier::group_spec(kw@) is None,
            },
    {
        let c = chars_of(kw);
        let c = c.as_slice();
        let v: Vec<Carrier> = if is_text(c, "ct") {
            vec![Carrier::Telecom]
        } else if is_text(c, "cu") {
            vec![Carrier::Unicom]
        } else if is_text(c, "cm") {
            vec![Carrier::Mobile]
        } else if is_text(c, "hk") {
            vec![Carrier::Hk]
        } else if is_text(c, "edu") {
            vec![Carrier::Edu]
        } else if is_text(c, "us") {
            vec![Carrier::Us]
        } else if is_text(c, "jp") {
            vec![Carrier::Jp]
        } else if is_text(c, "sg") {
            vec![Carrier::Sg]
        } else if is_text(c, "cn") {
            vec![Carrier::Telecom, Carrier::Unicom, Carrier::Mobile]
        } else if is_text(c, "intl") {
            vec![Carrier::Us, Carrier::Jp, Carrier::Sg]
        } else {
            return None;
        };
        assert(Carrier::group_spec(kw@) == Some(v@));
        Some(v)
    }

    /// Carrier named in a configuration entry (any ASCII case); Telecom for
    /// anything unknown.
    pub open spec fn lenient_spec(s: Seq<char>) -> Carrier {
        let l = ascii_lower(s);
        if l == "unicom"@ || l == "cu"@ {
            Carrier::Unicom
        } else if l == "mobile"@ || l == "cm"@ {
            Carrier::Mobile
        } else if l == "edu"@ {
            Carrier::Edu
        } else if l == "hk"@ {
            Carrier::Hk
        } else if l == "us"@ {
            Carrier::Us
        } else if l == "jp"@ {
            Carrier::Jp
        } else if l == "sg"@ {
            Carrier::Sg
        } else {
            Carrier::Telecom
        }
    }

    pub fn from_str_lenient(s: &str) -> (c: Carrier)
        ensures
            c == Carrier::lenient_spec(s@),
    {
        let cs = chars_of(s);
        let l = to_lower(cs.as_slice());
        let l = l.as_slice();
        if is_text(l, "unicom") || is_text(l, "cu") {
            Carrier::Unicom
        } else if is_text(l, "mobile") || is_text(l, "cm") {
            Carrier::Mobile
        } else if is_text(l, "edu") {
            Carrier::Edu
        } else if is_text(l, "hk") {
            Carrier::Hk
        } else if is_text(l, "us") {
            Carrier::Us
        } else if is_text(l, "jp") {
            Carrier::Jp
        } else if is_text(l, "sg") {
            Carrier::Sg
        } else {
            Carrier::Telecom
        }
    }
}

/// A speed-test node. With `host` set it is used directly; otherwise the
/// host is looked up by `search` and `id` at run time.
#[derive(Debug)]
pub struct SpeedNode {
    /// speedtest.net server id; 0 for configured nodes.
    pub id: u32,
    pub name: String,
    pub carrier: Carrier,
    /// City search word for the host lookup.
    pub search: String,
    pub host: Option<String>,
    /// One of the default selection.
    pub default: bool,
}

pub ghost struct SpeedNodeV {
    pub id: u32,
    pub name: Seq<char>,
    pub carrier: Carrier,
    pub search: Seq<char>,
    pub host: Option<Seq<char>>,
    pub default: bool,
}

impl View for SpeedNode {
    type V = SpeedNodeV;

    open spec fn view(&self) -> SpeedNodeV {
        SpeedNodeV {
            id: self.id,
            name: self.name@,
            carrier: self.carrier,
            search: self.search@,
            host: match self.host { Some(h) => Some(h@), None => None },
            default: self.default,
        }
    }
}

impl SpeedNode {
    /// A field-by-field copy.
    pub fn copy(&self) -> (r: SpeedNode)
        ensures
            r@ == self@,
    {
        SpeedNode {
            id: self.id,
            name: self.name.clone(),
            carrier: self.carrier,
            search: self.search.clone(),
            host: copy_opt(&self.host),
            default: self.default,
        }
    }
}

/// The nodes of a list, by their views.
pub open spec fn nodes(s: Seq<SpeedNode>) -> Seq<SpeedNodeV> {
    s.map_values(|n: SpeedNode| n@)
}

/// What a selection asks for: the catalog listing, or these nodes.
pub enum Selection {
    List,
    Nodes(Vec<SpeedNode>),
}

pub ghost enum SelectionV {
    List,
    Nodes(Seq<SpeedNodeV>),
}

impl View for Selection {
    type V = SelectionV;

    open spec fn view(&self) -> SelectionV {
        match self {
            Selection::List => SelectionV::List,
            Selection::Nodes(v) => SelectionV::Nodes(nodes(v@)),
        }
    }
}

pub open spec fn entry(id: u32, name: Seq<char>, carrier: Carrier, search: Seq<char>, default: bool) -> SpeedNodeV {
    SpeedNodeV { id, name, carrier, search, host: None, default }
}

/// The built-in node list: mainland carriers, Hong Kong, education network
/// and international nodes.
pub open spec fn catalog_spec() -> Seq<SpeedNodeV> {
    seq![
        entry(3633, "电信 上海"@, Carrier::Telecom, "shanghai"@, false),
        entry(27594, "电信 广州"@, Carrier::Telecom, "guangzhou"@, false),
        entry(34115, "电信 天津5G"@, Carrier::Telecom, "tianjin"@, false),
        entry(17145, "电信 合肥5G"@, Carrier::Telecom, "hefei"@, false),
        entry(5396, "电信 江苏苏州5G"@, Carrier::Telecom, "suzhou"@, true),
        entry(5317, "电信 扬州5G"@, Carrier::Telecom, "yangzhou"@, false),
        entry(36663, "电信 镇江5G"@, Carrier::Telecom, "zhenjiang"@, false),
        entry(29071, "电信 成都"@, Carrier::Telecom, "chengdu"@, false),
        entry(29353, "电信 武汉5G"@, Carrier::Telecom, "wuhan"@, false),
        entry(28225, "电信 长沙5G"@, Carrier::Telecom, "changsha"@, false),
        entry(3973, "电信 兰州"@, Carrier::Telecom, "lanzhou"@, false),
        entry(34988, "电信 沈阳5G"@, Carrier::Telecom, "shenyang"@, false),
        entry(59386, "电信 浙江杭州"@, Carrier::Telecom, "hangzhou"@, true),
        entry(24447, "联通 上海5G"@, Carrier::Unicom, "shanghai"@, true),
        entry(54625, "联通 南昌"@, Carrier::Unicom, "nanchang"@, false),
        entry(45170, "联通 无锡"@, Carrier::Unicom, "wuxi"@, false),
        entry(4884, "联通 福州"@, Carrier::Unicom, "fuzhou"@, false),
        entry(36646, "联通 郑州5G"@, Carrier::Unicom, "zhengzhou"@, false),
        entry(37235, "联通 沈阳"@, Carrier::Unicom, "shenyang"@, false),
        entry(43752, "联通 北京"@, Carrier::Unicom, "beijing"@, true),
        entry(25637, "移动 上海5G"@, Carrier::Mobile, "shanghai"@, true),
        entry(6715, "移动 杭州5G"@, Carrier::Mobile, "hangzhou"@, false),
        entry(26404, "移动 合肥5G"@, Carrier::Mobile, "hefei"@, false),
        entry(25858, "移动 北京"@, Carrier::Mobile, "beijing"@, false),
        entry(4575, "移动 成都"@, Carrier::Mobile, "chengdu"@, false),
        entry(41910, "移动 郑州5G"@, Carrier::Mobile, "zhengzhou"@, false),
        entry(16171, "移动 福州"@, Carrier::Mobile, "fuzhou"@, false),
        entry(26940, "移动 银川5G"@, Carrier::Mobile, "yinchuan"@, false),
        entry(53087, "移动 深圳"@, Carrier::Mobile, "shenzhen"@, false),
        entry(54312, "移动 杭州"@, Carrier::Mobile, "hangzhou"@, false),
        entry(16145, "移动 兰州"@, Carrier::Mobile, "lanzhou"@, false),
        entry(29105, "移动 西安"@, Carrier::Mobile, "xi'an"@, false),
        entry(37639, "香港 CMHK Broadband"@, Carrier::Hk, "hong%20kong"@, true),
        entry(13538, "香港 CSL"@, Carrier::Hk, "hong%20kong"@, false),
        entry(32155, "香港 CMHK Mobile"@, Carrier::Hk, "hong%20kong"@, false),
        entry(30852, "教育网 江苏昆山"@, Carrier::Edu, "kunshan"@, false),
        entry(35527, "广电 四川成都"@, Carrier::Edu, "chengdu"@, false),
        entry(43201, "美国 洛杉矶"@, Carrier::Us, "los%20angeles"@, false),
        entry(17846, "美国 圣何塞"@, Carrier::Us, "san%20jose"@, false),
        entry(48463, "日本 东京"@, Carrier::Jp, "tokyo"@, false),
        entry(31293, "新加坡"@, Carrier::Sg, "singapore"@, false)
    ]
}

fn mk(id: u32, name: &str, carrier: Carrier, search: &str, default: bool) -> (n: SpeedNode)
    ensures
        n@ == entry(id, name@, carrier, search@, default),
{
    SpeedNode { id, name: owned(name), carrier, search: owned(search), host: None, default }
}

/// The built-in node catalog.
pub fn catalog() -> (c: Vec<SpeedNode>)
    ensures
        nodes(c@) == catalog_spec(),
{
    let c = vec![
        mk(3633, "电信 上海", Carrier::Telecom, "shanghai", false),
        mk(27594, "电信 广州", Carrier::Telecom, "guangzhou", false),
        mk(34115, "电信 天津5G", Carrier::Telecom, "tianjin", false),
        mk(17145, "电信 合肥5G", Carrier::Telecom, "hefei", false),
        mk(5396, "电信 江苏苏州5G", Carrier::Telecom, "suzhou", true),
        mk(5317, "电信 扬州5G", Carrier::Telecom, "yangzhou", false),
        mk(36663, "电信 镇江5G", Carrier::Telecom, "zhenjiang", false),
        mk(29071, "电信 成都", Carrier::Telecom, "chengdu", false),
        mk(29353, "电信 武汉5G", Carrier::Telecom, "wuhan", false),
        mk(28225, "电信 长沙5G", Carrier::Telecom, "changsha", false),
        mk(3973, "电信 兰州", Carrier::Telecom, "lanzhou", false),
        mk(34988, "电信 沈阳5G", Carrier::Telecom, "shenyang", false),
        mk(59386, "电信 浙江杭州", Carrier::Telecom, "hangzhou", true),
        mk(24447, "联通 上海5G", Carrier::Unicom, "shanghai", true),
        mk(54625, "联通 南昌", Carrier::Unicom, "nanchang", false),
        mk(45170, "联通 无锡", Carrier::Unicom, "wuxi", false),
        mk(4884, "联通 福州", Carrier::Unicom, "fuzhou", false),
        mk(36646, "联通 郑州5G", Carrier::Unicom, "zhengzhou", false),
        mk(37235, "联通 沈阳", Carrier::Unicom, "shenyang", false),
        mk(43752, "联通 北京", Carrier::Unicom, "beijing", true),
        mk(25637, "移动 上海5G", Carrier::Mobile, "shanghai", true),
        mk(6715, "移动 杭州5G", Carrier::Mobile, "hangzhou", false),
        mk(26404, "移动 合肥5G", Carrier::Mobile, "hefei", false),
        mk(25858, "移动 北京", Carrier::Mobile, "beijing", false),
        mk(4575, "移动 成都", Carrier::Mobile, "chengdu", false),
        mk(41910, "移动 郑州5G", Carrier::Mobile, "zhengzhou", false),
        mk(16171, "移动 福州", Carrier::Mobile, "fuzhou", false),
        mk(26940, "移动 银川5G", Carrier::Mobile, "yinchuan", false),
        mk(53087, "移动 深圳", Carrier::Mobile, "shenzhen", false),
        mk(54312, "移动 杭州", Carrier::Mobile, "hangzhou", false),
        mk(16145, "移动 兰州", Carrier::Mobile, "lanzhou", false),
        mk(29105, "移动 西安", Carrier::Mobile, "xi'an", false),
        mk(37639, "香港 CMHK Broadband", Carrier::Hk, "hong%20kong", true),
        mk(13538, "香港 CSL", Carrier::Hk, "hong%20kong", false),
        mk(32155, "香港 CMHK Mobile", Carrier::Hk, "hong%20kong", false),
        mk(30852, "教育网 江苏昆山", Carrier::Edu, "kunshan", false),
        mk(35527, "广电 四川成都", Carrier::Edu, "chengdu", false),
        mk(43201, "美国 洛杉矶", Carrier::Us, "los%20angeles", false),
        mk(17846, "美国 圣何塞", Carrier::Us, "san%20jose", false),
        mk(48463, "日本 东京", Carrier::Jp, "tokyo", false),
        mk(31293, "新加坡", Carrier::Sg, "singapore", false)
    ];
    assert(nodes(c@) =~= catalog_spec());
    c
}

/// No node of `s` has this id.
pub open spec fn id_absent(s: Seq<SpeedNodeV>, id: u32) -> bool
    decreases s.len(),
{
    s.len() == 0 || (s[0].id != id && id_absent(s.drop_first(), id))
}

/// Every id occurs once, and none is 0 (the id of configured nodes).
pub open spec fn ids_unique(s: Seq<SpeedNodeV>) -> bool
    decreases s.len(),
{
    s.len() == 0 || (s[0].id != 0 && id_absent(s.drop_first(), s[0].id) && ids_unique(s.drop_first()))
}

proof fn lemma_id_absent(s: Seq<SpeedNodeV>, id: u32)
    requires
        id_absent(s, id),
    ensures
        forall|k: int| 0 <= k < s.len() ==> (#[trigger] s[k]).id != id,
    decreases s.len(),
{
    if s.len() > 0 {
        lemma_id_absent(s.drop_first(), id);
        assert forall|k: int| 0 <= k < s.len() implies (#[trigger] s[k]).id != id by {
            if k > 0 {
                assert(s[k] == s.drop_first()[k - 1]);
            }
        }
    }
}

proof fn lemma_ids_unique(s: Seq<SpeedNodeV>)
    requires
        ids_unique(s),
    ensures
        forall|i: int, j: int| 0 <= i < j < s.len() ==> (#[trigger] s[i]).id != (#[trigger] s[j]).id,
        forall|i: int| 0 <= i < s.len() ==> (#[trigger] s[i]).id != 0,
    decreases s.len(),
{
    if s.len() > 0 {
        let t = s.drop_first();
        lemma_ids_unique(t);
        lemma_id_absent(t, s[0].id);
        assert forall|i: int, j: int| 0 <= i < j < s.len() implies (#[trigger] s[i]).id != (#[trigger] s[j]).id by {
            assert(s[j] == t[j - 1]);
            if i > 0 {
                assert(s[i] == t[i - 1]);
            }
        }
        assert forall|i: int| 0 <= i < s.len() implies (#[trigger] s[i]).id != 0 by {
            if i > 0 {
                assert(s[i] == t[i - 1]);
            }
        }
    }
}

/// The catalog has 41 nodes with distinct non-zero ids, six of them in the
/// default selection.
pub proof fn lemma_catalog_sane()
    ensures
        catalog_spec().len() == 41,
        defaults(catalog_spec()).len() == 6,
        forall|i: int, j: int| 0 <= i < j < catalog_spec().len() ==>
            (#[trigger] catalog_spec()[i]).id != (#[trigger] catalog_spec()[j]).id,
        forall|i: int| 0 <= i < catalog_spec().len() ==> (#[trigger] catalog_spec()[i]).id != 0,
{
    let c = catalog_spec();
    assert(defaults(c).len() == 6) by {
        reveal_with_fuel(defaults, 42);
    }
    assert(ids_unique(c)) by {
        reveal_with_fuel(ids_unique, 42);
        reveal_with_fuel(id_absent, 42);
    }
    lemma_ids_unique(c);
}

// ───────────────────────── selection ─────────────────────────

/// Two nodes are the same where both id and name agree.
pub open spec fn same_node(a: SpeedNodeV, b: SpeedNodeV) -> bool {
    a.id == b.id && a.name == b.name
}

pub open spec fn has_node(acc: Seq<SpeedNodeV>, n: SpeedNodeV) -> bool {
    exists|i: int| 0 <= i < acc.len() && same_node(#[trigger] acc[i], n)
}

/// `n` appended unless the same node is already there.
pub open spec fn add_node(acc: Seq<SpeedNodeV>, n: SpeedNodeV) -> Seq<SpeedNodeV> {
    if has_node(acc, n) { acc } else { acc.push(n) }
}

/// Every node of `ns` added in order.
pub open spec fn add_all(acc: Seq<SpeedNodeV>, ns: Seq<SpeedNodeV>) -> Seq<SpeedNodeV>
    decreases ns.len(),
{
    if ns.len() == 0 { acc } else { add_node(add_all(acc, ns.drop_last()), ns.last()) }
}

/// The nodes whose carrier is in `g`, in order.
pub open spec fn in_groups(cat: Seq<SpeedNodeV>, g: Seq<Carrier>) -> Seq<SpeedNodeV>
    decreases cat.len(),
{
    if cat.len() == 0 {
        Seq::empty()
    } else if g.contains(cat.last().carrier) {
        in_groups(cat.drop_last(), g).push(cat.last())
    } else {
        in_groups(cat.drop_last(), g)
    }
}

/// The default nodes, in order.
pub open spec fn defaults(cat: Seq<SpeedNodeV>) -> Seq<SpeedNodeV>
    decreases cat.len(),
{
    if cat.len() == 0 {
        Seq::empty()
    } else if cat.last().default {
        defaults(cat.drop_last()).push(cat.last())
    } else {
        defaults(cat.drop_last())
    }
}

/// The first node with this id.
pub open spec fn find_id(cat: Seq<SpeedNodeV>, id: u32) -> Option<SpeedNodeV>
    decreases cat.len(),
{
    if cat.len() == 0 {
        None
    } else if cat[0].id == id {
        Some(cat[0])
    } else {
        find_id(cat.drop_first(), id)
    }
}

pub open spec fn unknown_id_text(id: u32) -> Seq<char> {
    "未知节点 id: "@ + dec_text(id as nat)
}

pub open spec fn unknown_word_text(seg: Seq<char>) -> Seq<char> {
    "未知选择关键字: '"@ + seg + "'(有效:all/cn/ct/cu/cm/hk/edu/intl/us/jp/sg/list 或 server id)"@
}

/// One comma-separated item applied to the nodes picked so far: blank items
/// are skipped; `all` adds the catalog, a group word its carriers' nodes, a
/// number the node with that id; anything else is an error.
pub open spec fn apply_item(
    acc: Result<Seq<SpeedNodeV>, Seq<char>>,
    raw: Seq<char>,
    cat: Seq<SpeedNodeV>,
) -> Result<Seq<SpeedNodeV>, Seq<char>> {
    match acc {
        Err(e) => Err(e),
        Ok(p) => {
            let seg = trim(raw);
            let low = ascii_lower(seg);
            if seg.len() == 0 {
                Ok(p)
            } else if low == "all"@ {
                Ok(add_all(p, cat))
            } else if Carrier::group_spec(low) is Some {
                Ok(add_all(p, in_groups(cat, Carrier::group_spec(low)->0)))
            } else if parse_u32_spec(seg) is Some {
                match find_id(cat, parse_u32_spec(seg)->0) {
                    Some(n) => Ok(add_node(p, n)),
                    None => Err(unknown_id_text(parse_u32_spec(seg)->0)),
                }
            } else {
                Err(unknown_word_text(seg))
            }
        },
    }
}

pub open spec fn apply_items(items: Seq<Seq<char>>, cat: Seq<SpeedNodeV>) -> Result<Seq<SpeedNodeV>, Seq<char>>
    decreases items.len(),
{
    if items.len() == 0 {
        Ok(Seq::empty())
    } else {
        apply_item(apply_items(items.drop_last(), cat), items.last(), cat)
    }
}

/// Meaning of a `--speedtest` selection over a catalog: `list` (any case)
/// lists the catalog, an empty selection takes the default nodes, else the
/// comma-separated items in order, each node once.
pub open spec fn selection_spec(spec: Seq<char>, cat: Seq<SpeedNodeV>) -> Result<SelectionV, Seq<char>> {
    let t = trim(spec);
    if eq_ignore_case(t, "list"@) {
        Ok(SelectionV::List)
    } else if t.len() == 0 {
        Ok(SelectionV::Nodes(defaults(cat)))
    } else {
        match apply_items(split_commas(t), cat) {
            Ok(v) => Ok(SelectionV::Nodes(v)),
            Err(e) => Err(e),
        }
    }
}

fn push_node(out: &mut Vec<SpeedNode>, n: &SpeedNode)
    ensures
        nodes(final(out)@) == add_node(nodes(old(out)@), n@),
{
    let ghost acc = nodes(out@);
    let mut i: usize = 0;
    while i < out.len()
        invariant
            i <= out@.len(),
            acc == nodes(out@),
            forall|j: int| 0 <= j < i ==> !same_node(#[trigger] acc[j], n@),
        decreases out.len() - i,
    {
        assert(acc[i as int] == out@[i as int]@);
        if out[i].id == n.id && out[i].name == n.name {
            assert(same_node(acc[i as int], n@));
            return;
        }
        i += 1;
    }
    let c = n.copy();
    out.push(c);
    assert(nodes(out@) =~= acc.push(n@));
}

fn push_all(out: &mut Vec<SpeedNode>, ns: &Vec<SpeedNode>)
    ensures
        nodes(final(out)@) == add_all(nodes(old(out)@), nodes(ns@)),
{
    let ghost start = nodes(out@);
    let ghost s = nodes(ns@);
    let mut i: usize = 0;
    while i < ns.len()
        invariant
            i <= ns@.len(),
            s == nodes(ns@),
            nodes(out@) == add_all(start, s.take(i as int)),
        decreases ns.len() - i,
    {
        assert(s.take(i + 1).drop_last() =~= s.take(i as int));
        push_node(out, &ns[i]);
        i += 1;
    }
    assert(s.take(ns@.len() as int) =~= s);
}

fn contains_carrier(g: &Vec<Carrier>, c: Carrier) -> (r: bool)
    ensures
        r == g@.contains(c),
{
    let mut i: usize = 0;
    while i < g.len()
        invariant
            i <= g@.len(),
            forall|j: int| 0 <= j < i ==> g@[j] != c,
        decreases g.len() - i,
    {
        if g[i] == c {
            return true;
        }
        i += 1;
    }
    false
}

fn group_members(cat: &[SpeedNode], g: &Vec<Carrier>) -> (r: Vec<SpeedNode>)
    ensures
        nodes(r@) == in_groups(nodes(cat@), g@),
{
    let ghost s = nodes(cat@);
    let mut r: Vec<SpeedNode> = Vec::new();
    let mut i: usize = 0;
    while i < cat.len()
        invariant
            i <= cat@.len(),
            s == nodes(cat@),
            nodes(r@) == in_groups(s.take(i as int), g@),
        decreases cat.len() - i,
    {
        assert(s.take(i + 1).drop_last() =~= s.take(i as int));
        assert(s.take(i + 1).last() == cat@[i as int]@);
        if contains_carrier(g, cat[i].carrier) {
            let c = cat[i].copy();
            let ghost prev = r@;
            r.push(c);
            assert(nodes(r@) =~= nodes(prev).push(c@));
        }
        i += 1;
    }
    assert(s.take(cat@.len() as int) =~= s);
    r
}

fn default_members(cat: &[SpeedNode]) -> (r: Vec<SpeedNode>)
    ensures
        nodes(r@) == defaults(nodes(cat@)),
{
    let ghost s = nodes(cat@);
    let mut r: Vec<SpeedNode> = Vec::new();
    let mut i: usize = 0;
    while i < cat.len()
        invariant
            i <= cat@.len(),
            s == nodes(cat@),
            nodes(r@) == defaults(s.take(i as int)),
        decreases cat.len() - i,
    {
        assert(s.take(i + 1).drop_last() =~= s.take(i as int));
        assert(s.take(i + 1).last() == cat@[i as int]@);
        if cat[i].default {
            let c = cat[i].copy();
            let ghost prev = r@;
            r.push(c);
            assert(nodes(r@) =~= nodes(prev).push(c@));
        }
        i += 1;
    }
    assert(s.take(cat@.len() as int) =~= s);
    r
}

fn find_node(cat: &[SpeedNode], id: u32) -> (r: Option<usize>)
    ensures
        match r {
            Some(i) => i < cat@.len() && find_id(nodes(cat@), id) == Some(nodes(cat@)[i as int]),
            None => find_id(nodes(cat@), id) is None,
        },
{
    let ghost s = nodes(cat@);
    let mut i: usize = 0;
    assert(s.skip(0) =~= s);
    while i < cat.len()
        invariant
            i <= cat@.len(),
            s == nodes(cat@),
            find_id(s, id) == find_id(s.skip(i as int), id),
        decreases cat.len() - i,
    {
        assert(s.skip(i as int).drop_first() =~= s.skip(i + 1));
        assert(s.skip(i as int)[0] == s[i as int]);
        if cat[i].id == id {
            return Some(i);
        }
        i += 1;
    }
    None
}

fn unknown_id(id: u32) -> (e: String)
    ensures
        e@ == unknown_id_text(id),
{
    let mut e = owned("未知节点 id: ");
    let d = uint_text(id as u64);
    push_text(&mut e, d.as_str());
    e
}

fn unknown_word(seg: &[char]) -> (e: String)
    ensures
        e@ == unknown_word_text(seg@),
{
    let mut e = owned("未知选择关键字: '");
    let s = string_of(seg);
    push_text(&mut e, s.as_str());
    push_text(&mut e, "'(有效:all/cn/ct/cu/cm/hk/edu/intl/us/jp/sg/list 或 server id)");
    e
}

fn apply_item_exec(acc: &mut Vec<SpeedNode>, raw: &[char], cat: &[SpeedNode]) -> (r: Result<(), String>)
    ensures
        match r {
            Ok(_) => apply_item(Ok(nodes(old(acc)@)), raw@, nodes(cat@)) == Ok::<Seq<SpeedNodeV>, Seq<char>>(nodes(final(acc)@)),
            Err(e) => apply_item(Ok(nodes(old(acc)@)), raw@, nodes(cat@)) == Err::<Seq<SpeedNodeV>, Seq<char>>(e@),
        },
{
    let seg = trim_chars(raw);
    if seg.len() == 0 {
        return Ok(());
    }
    let low = to_lower(seg.as_slice());
    let low_s = string_of(low.as_slice());
    if is_text(low.as_slice(), "all") {
        let all = copy_nodes(cat);
        push_all(acc, &all);
        return Ok(());
    }
    match Carrier::group(low_s.as_str()) {
        Some(g) => {
            let members = group_members(cat, &g);
            push_all(acc, &members);
            return Ok(());
        },
        None => {},
    }
    match parse_u32_chars(seg.as_slice()) {
        Some(id) => match find_node(cat, id) {
            Some(i) => {
                push_node(acc, &cat[i]);
                Ok(())
            },
            None => Err(unknown_id(id)),
        },
        None => Err(unknown_word(seg.as_slice())),
    }
}

fn copy_nodes(cat: &[SpeedNode]) -> (r: Vec<SpeedNode>)
    ensures
        nodes(r@) == nodes(cat@),
{
    let mut r: Vec<SpeedNode> = Vec::new();
    let mut i: usize = 0;
    while i < cat.len()
        invariant
            i <= cat@.len(),
            nodes(r@) == nodes(cat@.take(i as int)),
        decreases cat.len() - i,
    {
        let c = cat[i].copy();
        let ghost prev = r@;
        r.push(c);
        assert(cat@.take(i + 1) =~= cat@.take(i as int).push(cat@[i as int]));
        assert(nodes(r@) =~= nodes(prev).push(c@));
        assert(nodes(cat@.take(i + 1)) =~= nodes(cat@.take(i as int)).push(cat@[i as int]@));
        i += 1;
    }
    assert(cat@.take(cat@.len() as int) =~= cat@);
    r
}

proof fn lemma_items_err_stays(items: Seq<Seq<char>>, cat: Seq<SpeedNodeV>, k: int, e: Seq<char>)
    requires
        0 <= k <= items.len(),
        apply_items(items.take(k), cat) == Err::<Seq<SpeedNodeV>, Seq<char>>(e),
    ensures
        apply_items(items, cat) == Err::<Seq<SpeedNodeV>, Seq<char>>(e),
    decreases items.len() - k,
{
    if k < items.len() {
        assert(items.take(k + 1).drop_last() =~= items.take(k));
        lemma_items_err_stays(items, cat, k + 1, e);
    } else {
        assert(items.take(k) =~= items);
    }
}

/// Reads a `--speedtest` selection against a catalog (see `selection_spec`):
/// `list` lists the catalog; empty takes the default nodes; otherwise
/// comma-separated `all`, group words (`cn`, `ct`, `cu`, `cm`, `hk`, `edu`,
/// `intl`, `us`, `jp`, `sg`) and server ids, each node once in the order
/// first selected. An unknown id or word is an error naming it.
pub fn parse_spec(spec: &str, catalog: &[SpeedNode]) -> (r: Result<Selection, String>)
    ensures
        match r {
            Ok(s) => selection_spec(spec@, nodes(catalog@)) == Ok::<SelectionV, Seq<char>>(s@),
            Err(e) => selection_spec(spec@, nodes(catalog@)) == Err::<SelectionV, Seq<char>>(e@),
        },
{
    let cs = chars_of(spec);
    let t = trim_chars(cs.as_slice());
    let list = chars_of("list");
    if eq_ignore_ascii_case(t.as_slice(), list.as_slice()) {
        return Ok(Selection::List);
    }
    if t.len() == 0 {
        return Ok(Selection::Nodes(default_members(catalog)));
    }
    let items = split_exec(t.as_slice());
    let ghost its = items@.map_values(|p: Vec<char>| p@);
    let ghost cat = nodes(catalog@);
    let mut picked: Vec<SpeedNode> = Vec::new();
    let mut i: usize = 0;
    assert(its.take(0) =~= Seq::<Seq<char>>::empty());
    assert(nodes(picked@) =~= Seq::<SpeedNodeV>::empty());
    while i < items.len()
        invariant
            i <= items@.len(),
            its == items@.map_values(|p: Vec<char>| p@),
            its == split_commas(t@),
            t@ == trim(spec@),
            !eq_ignore_case(t@, "list"@),
            t@.len() > 0,
            cat == nodes(catalog@),
            apply_items(its.take(i as int), cat) == Ok::<Seq<SpeedNodeV>, Seq<char>>(nodes(picked@)),
        decreases items.len() - i,
    {
        assert(its.take(i + 1).drop_last() =~= its.take(i as int));
        assert(its.take(i + 1).last() == items@[i as int]@);
        match apply_item_exec(&mut picked, items[i].as_slice(), catalog) {
            Ok(_) => {},
            Err(e) => {
                proof {
                    lemma_items_err_stays(its, cat, i + 1, e@);
                }
                return Err(e);
            },
        }
        i += 1;
    }
    assert(its.take(items@.len() as int) =~= its);
    Ok(Selection::Nodes(picked))
}

// ───────────────────────── laws ─────────────────────────

/// No two nodes of the list are the same node.
pub open spec fn distinct_nodes(s: Seq<SpeedNodeV>) -> bool {
    forall|i: int, j: int| 0 <= i < j < s.len() ==> !same_node(#[trigger] s[i], #[trigger] s[j])
}

proof fn lemma_add_node_distinct(acc: Seq<SpeedNodeV>, n: SpeedNodeV)
    requires
        distinct_nodes(acc),
    ensures
        distinct_nodes(add_node(acc, n)),
        forall|k: int| 0 <= k < acc.len() ==> add_node(acc, n)[k] == acc[k],
        has_node(add_node(acc, n), n),
{
    if !has_node(acc, n) {
        let r = acc.push(n);
        assert forall|i: int, j: int| 0 <= i < j < r.len() implies !same_node(#[trigger] r[i], #[trigger] r[j]) by {
            if j == acc.len() {
                assert(r[i] == acc[i]);
                assert(!same_node(acc[i], n));
            } else {
                assert(r[i] == acc[i] && r[j] == acc[j]);
            }
        }
        assert(same_node(r[acc.len() as int], n));
    }
}

proof fn lemma_add_all_distinct(acc: Seq<SpeedNodeV>, ns: Seq<SpeedNodeV>)
    requires
        distinct_nodes(acc),
    ensures
        distinct_nodes(add_all(acc, ns)),
    decreases ns.len(),
{
    if ns.len() > 0 {
        lemma_add_all_distinct(acc, ns.drop_last());
        lemma_add_node_distinct(add_all(acc, ns.drop_last()), ns.last());
    }
}

proof fn lemma_items_distinct(items: Seq<Seq<char>>, cat: Seq<SpeedNodeV>)
    ensures
        apply_items(items, cat) matches Ok(v) ==> distinct_nodes(v),
    decreases items.len(),
{
    if items.len() > 0 {
        lemma_items_distinct(items.drop_last(), cat);
        if let Ok(p) = apply_items(items.drop_last(), cat) {
            let seg = trim(items.last());
            let low = ascii_lower(seg);
            lemma_add_all_distinct(p, cat);
            if Carrier::group_spec(low) is Some {
                lemma_add_all_distinct(p, in_groups(cat, Carrier::group_spec(low)->0));
            }
            if let Some(id) = parse_u32_spec(seg) {
                if let Some(n) = find_id(cat, id) {
                    lemma_add_node_distinct(p, n);
                }
            }
        }
    } else {
        assert(distinct_nodes(Seq::<SpeedNodeV>::empty()));
    }
}

/// An item-by-item selection never picks the same node twice, however the
/// items overlap.
pub proof fn lemma_selection_distinct(spec: Seq<char>, cat: Seq<SpeedNodeV>)
    requires
        trim(spec).len() > 0,
    ensures
        selection_spec(spec, cat) matches Ok(SelectionV::Nodes(v)) ==> distinct_nodes(v),
{
    lemma_items_distinct(split_commas(trim(spec)), cat);
}

// ───────────────────────── joined selections ─────────────────────────

proof fn lemma_add_all_concat(p: Seq<SpeedNodeV>, s: Seq<SpeedNodeV>, t: Seq<SpeedNodeV>)
    ensures
        add_all(add_all(p, s), t) == add_all(p, s + t),
    decreases t.len(),
{
    if t.len() == 0 {
        assert(s + t =~= s);
    } else {
        lemma_add_all_concat(p, s, t.drop_last());
        assert((s + t).drop_last() =~= s + t.drop_last());
        assert((s + t).last() == t.last());
    }
}

/// Every node given, and every node already there, is in the result.
proof fn lemma_add_all_has(p: Seq<SpeedNodeV>, s: Seq<SpeedNodeV>)
    ensures
        forall|i: int| 0 <= i < p.len() ==> has_node(add_all(p, s), #[trigger] p[i]),
        forall|i: int| 0 <= i < s.len() ==> has_node(add_all(p, s), #[trigger] s[i]),
    decreases s.len(),
{
    if s.len() > 0 {
        let prev = add_all(p, s.drop_last());
        lemma_add_all_has(p, s.drop_last());
        let x = s.last();
        if !has_node(prev, x) {
            let w = prev.push(x);
            assert forall|n: SpeedNodeV| has_node(prev, n) implies has_node(w, n) by {
                let k = choose|k: int| 0 <= k < prev.len() && same_node(#[trigger] prev[k], n);
                assert(w[k] == prev[k]);
            }
            assert(same_node(w[w.len() - 1], x));
        }
        assert forall|i: int| 0 <= i < s.len() implies has_node(add_all(p, s), #[trigger] s[i]) by {
            if i < s.len() - 1 {
                assert(s[i] == s.drop_last()[i]);
            }
        }
        assert forall|i: int| 0 <= i < p.len() implies has_node(add_all(p, s), #[trigger] p[i]) by {}
    }
}

/// Adding a deduplicated list is adding the list.
proof fn lemma_add_all_nested(p: Seq<SpeedNodeV>, q: Seq<SpeedNodeV>, s: Seq<SpeedNodeV>)
    ensures
        add_all(p, add_all(q, s)) == add_all(add_all(p, q), s),
    decreases s.len(),
{
    if s.len() == 0 {
    } else {
        let a = add_all(q, s.drop_last());
        lemma_add_all_nested(p, q, s.drop_last());
        let b = add_all(add_all(p, q), s.drop_last());
        let x = s.last();
        if has_node(a, x) {
            lemma_add_all_has(p, a);
            let k = choose|k: int| 0 <= k < a.len() && same_node(#[trigger] a[k], x);
            assert(has_node(add_all(p, a), a[k]));
            let m = choose|m: int| 0 <= m < b.len() && same_node(#[trigger] b[m], a[k]);
            assert(same_node(b[m], x));
        } else {
            assert(a.push(x).drop_last() =~= a);
        }
    }
}

/// The nodes one item names: none for a blank item, the catalog for `all`,
/// a group's nodes, or the node with the given id.
pub open spec fn item_nodes(raw: Seq<char>, cat: Seq<SpeedNodeV>) -> Seq<SpeedNodeV> {
    let seg = trim(raw);
    let low = ascii_lower(seg);
    if seg.len() == 0 {
        Seq::empty()
    } else if low == "all"@ {
        cat
    } else if Carrier::group_spec(low) is Some {
        in_groups(cat, Carrier::group_spec(low)->0)
    } else {
        match find_id(cat, parse_u32_spec(seg)->0) {
            Some(n) => seq![n],
            None => Seq::empty(),
        }
    }
}

/// The items applied to an already selected list.
pub open spec fn apply_from(
    acc: Result<Seq<SpeedNodeV>, Seq<char>>,
    items: Seq<Seq<char>>,
    cat: Seq<SpeedNodeV>,
) -> Result<Seq<SpeedNodeV>, Seq<char>>
    decreases items.len(),
{
    if items.len() == 0 { acc } else { apply_item(apply_from(acc, items.drop_last(), cat), items.last(), cat) }
}

pub open spec fn items_nodes(items: Seq<Seq<char>>, cat: Seq<SpeedNodeV>) -> Seq<SpeedNodeV>
    decreases items.len(),
{
    if items.len() == 0 { Seq::empty() } else { items_nodes(items.drop_last(), cat) + item_nodes(items.last(), cat) }
}

proof fn lemma_apply_items_from(xs: Seq<Seq<char>>, ys: Seq<Seq<char>>, cat: Seq<SpeedNodeV>)
    ensures
        apply_items(xs + ys, cat) == apply_from(apply_items(xs, cat), ys, cat),
    decreases ys.len(),
{
    if ys.len() == 0 {
        assert(xs + ys =~= xs);
    } else {
        lemma_apply_items_from(xs, ys.drop_last(), cat);
        assert((xs + ys).drop_last() =~= xs + ys.drop_last());
        assert((xs + ys).last() == ys.last());
    }
}

/// From a selected list, items that all apply add their nodes; an item that
/// fails makes the whole fail, whatever came before.
proof fn lemma_apply_from_nodes(p: Seq<SpeedNodeV>, q: Seq<SpeedNodeV>, ys: Seq<Seq<char>>, cat: Seq<SpeedNodeV>)
    ensures
        apply_from(Ok(q), ys, cat) is Ok ==> apply_from(Ok(p), ys, cat) == Ok::<Seq<SpeedNodeV>, Seq<char>>(add_all(p, items_nodes(ys, cat))),
    decreases ys.len(),
{
    if ys.len() > 0 {
        lemma_apply_from_nodes(p, q, ys.drop_last(), cat);
        let prev_q = apply_from(Ok(q), ys.drop_last(), cat);
        if apply_from(Ok(q), ys, cat) is Ok {
            if prev_q is Err {
                assert(apply_item(prev_q, ys.last(), cat) is Err);
            }
            let pp = add_all(p, items_nodes(ys.drop_last(), cat));
            let raw = ys.last();
            lemma_add_all_concat(p, items_nodes(ys.drop_last(), cat), item_nodes(raw, cat));
            let seg = trim(raw);
            if seg.len() == 0 {
                assert(item_nodes(raw, cat) =~= Seq::<SpeedNodeV>::empty());
                assert(add_all(pp, Seq::<SpeedNodeV>::empty()) == pp);
            } else if ascii_lower(seg) == "all"@ {
            } else if Carrier::group_spec(ascii_lower(seg)) is Some {
            } else {
                let n = find_id(cat, parse_u32_spec(seg)->0)->0;
                assert(seq![n].drop_last() =~= Seq::<SpeedNodeV>::empty());
                assert(add_all(pp, seq![n]) == add_node(add_all(pp, Seq::<SpeedNodeV>::empty()), n));
            }
        }
    }
}

/// Joining two selections with a comma selects the first selection's nodes,
/// then those of the second not yet selected.
pub proof fn lemma_selection_join(xs: Seq<Seq<char>>, ys: Seq<Seq<char>>, cat: Seq<SpeedNodeV>)
    requires
        apply_items(xs, cat) is Ok,
        apply_items(ys, cat) is Ok,
    ensures
        apply_items(xs + ys, cat) == Ok::<Seq<SpeedNodeV>, Seq<char>>(add_all(apply_items(xs, cat)->Ok_0, apply_items(ys, cat)->Ok_0)),
{
    let va = apply_items(xs, cat)->Ok_0;
    lemma_apply_items_from(xs, ys, cat);
    lemma_apply_items_from(Seq::empty(), ys, cat);
    assert(Seq::<Seq<char>>::empty() + ys =~= ys);
    assert(apply_items(Seq::<Seq<char>>::empty(), cat) == Ok::<Seq<SpeedNodeV>, Seq<char>>(Seq::empty()));
    let e = Seq::<SpeedNodeV>::empty();
    lemma_apply_from_nodes(va, e, ys, cat);
    lemma_apply_from_nodes(e, e, ys, cat);
    lemma_add_all_nested(va, e, items_nodes(ys, cat));
}

/// Two selections joined by a comma: the items of `a,b` select `a`'s nodes,
/// then `b`'s nodes not yet selected.
pub proof fn lemma_selection_join_text(a: Seq<char>, b: Seq<char>, cat: Seq<SpeedNodeV>)
    requires
        apply_items(split_commas(a), cat) is Ok,
        apply_items(split_commas(b), cat) is Ok,
    ensures
        apply_items(split_commas(a.push(',') + b), cat) == Ok::<Seq<SpeedNodeV>, Seq<char>>(
            add_all(apply_items(split_commas(a), cat)->Ok_0, apply_items(split_commas(b), cat)->Ok_0)),
{
    crate::text::lemma_split_join(a, b, ',');
    lemma_selection_join(split_commas(a), split_commas(b), cat);
}

/// Items that trim alike select alike.
proof fn lemma_apply_items_trimmed(xs: Seq<Seq<char>>, ys: Seq<Seq<char>>, cat: Seq<SpeedNodeV>)
    requires
        xs.len() == ys.len(),
        forall|i: int| 0 <= i < xs.len() ==> trim(#[trigger] xs[i]) == trim(ys[i]),
    ensures
        apply_items(xs, cat) == apply_items(ys, cat),
    decreases xs.len(),
{
    if xs.len() > 0 {
        assert forall|i: int| 0 <= i < xs.drop_last().len() implies trim(#[trigger] xs.drop_last()[i]) == trim(ys.drop_last()[i]) by {
            assert(xs.drop_last()[i] == xs[i]);
            assert(ys.drop_last()[i] == ys[i]);
        }
        lemma_apply_items_trimmed(xs.drop_last(), ys.drop_last(), cat);
        assert(trim(xs.last()) == trim(ys.last()));
    }
}

/// The items of a text select what the items of its trimmed text select.
proof fn lemma_apply_trim(s: Seq<char>, cat: Seq<SpeedNodeV>)
    ensures
        apply_items(split_commas(trim(s)), cat) == apply_items(split_commas(s), cat),
{
    crate::text::lemma_split_trim(s, ',');
    lemma_apply_items_trimmed(split_commas(trim(s)), split_commas(s), cat);
}

/// A node list selected by a spec that is neither empty nor `list`.
pub open spec fn picked_nodes(spec: Seq<char>, cat: Seq<SpeedNodeV>) -> Option<Seq<SpeedNodeV>> {
    match selection_spec(spec, cat) {
        Ok(SelectionV::Nodes(v)) => if trim(spec).len() > 0 { Some(v) } else { None },
        _ => None,
    }
}

/// Two specs, each selecting nodes by items (neither empty nor `list`), joined
/// by a comma: the joined spec selects the first spec's nodes, then the
/// second's not yet selected.
pub proof fn lemma_selection_spec_join(a: Seq<char>, b: Seq<char>, cat: Seq<SpeedNodeV>)
    requires
        picked_nodes(a, cat) is Some,
        picked_nodes(b, cat) is Some,
    ensures
        selection_spec(a.push(',') + b, cat) == Ok::<SelectionV, Seq<char>>(
            SelectionV::Nodes(add_all(picked_nodes(a, cat)->0, picked_nodes(b, cat)->0))),
{
    reveal_strlit("list");
    let w = a.push(',') + b;
    let t = trim(w);
    crate::text::lemma_trim_parts(w);
    let pre = w.take(crate::text::lead_spaces(w) as int);
    let ts = crate::text::trim_start(w);
    let post = ts.skip(ts.len() - crate::text::trail_spaces(ts));
    assert(w[a.len() as int] == ',');
    assert(!crate::text::is_space(','));
    let k = a.len() - pre.len();
    assert(0 <= k < t.len()) by {
        if a.len() < pre.len() {
            assert(w[a.len() as int] == pre[a.len() as int]);
        } else if a.len() >= pre.len() + t.len() {
            assert(w[a.len() as int] == post[a.len() - pre.len() - t.len()]);
        }
    }
    assert(t[k] == ',') by {
        assert(w[a.len() as int] == (pre + t)[a.len() as int]);
    }
    assert(!eq_ignore_case(t, "list"@)) by {
        if ascii_lower(t) == ascii_lower("list"@) {
            assert(ascii_lower(t)[k] == ',');
            assert(ascii_lower(t).len() == 4);
            let l = "list"@;
            assert(l.len() == 4);
            assert(ascii_lower(l)[k] == crate::text::lower_char(l[k]));
            assert(l[k] == 'l' || l[k] == 'i' || l[k] == 's' || l[k] == 't') by {
                if k == 0 { assert(l[0] == 'l'); } else if k == 1 { assert(l[1] == 'i'); }
                else if k == 2 { assert(l[2] == 's'); } else { assert(l[3] == 't'); }
            }
        }
    }
    assert(trim(a).len() > 0 && !eq_ignore_case(trim(a), "list"@));
    assert(trim(b).len() > 0 && !eq_ignore_case(trim(b), "list"@));
    lemma_apply_trim(a, cat);
    lemma_apply_trim(b, cat);
    lemma_apply_trim(w, cat);
    lemma_selection_join_text(a, b, cat);
}

/// Nodes added to `acc` come from `acc` or from `ns`.
proof fn lemma_add_all_from(acc: Seq<SpeedNodeV>, ns: Seq<SpeedNodeV>)
    ensures
        forall|i: int| 0 <= i < add_all(acc, ns).len() ==> acc.contains(#[trigger] add_all(acc, ns)[i]) || ns.contains(add_all(acc, ns)[i]),
    decreases ns.len(),
{
    if ns.len() > 0 {
        lemma_add_all_from(acc, ns.drop_last());
        let r = add_all(acc, ns);
        let q = add_all(acc, ns.drop_last());
        assert forall|i: int| 0 <= i < r.len() implies acc.contains(#[trigger] r[i]) || ns.contains(r[i]) by {
            if i < q.len() {
                assert(r[i] == q[i]);
                if ns.drop_last().contains(q[i]) {
                    let k = choose|k: int| 0 <= k < ns.drop_last().len() && ns.drop_last()[k] == q[i];
                    assert(ns[k] == q[i]);
                }
            } else {
                assert(r[i] == ns.last());
                assert(ns[ns.len() - 1] == ns.last());
            }
        }
    }
}

/// The test that a node belongs to the carrier.
pub open spec fn of_carrier(c: Carrier) -> spec_fn(SpeedNodeV) -> bool {
    |n: SpeedNodeV| n.carrier == c
}

proof fn lemma_in_groups_one(cat: Seq<SpeedNodeV>, c: Carrier)
    ensures
        in_groups(cat, seq![c]) == cat.filter(of_carrier(c)),
    decreases cat.len(),
{
    reveal(Seq::filter);
    if cat.len() == 0 {
        assert(cat.filter(of_carrier(c)) =~= Seq::<SpeedNodeV>::empty());
    } else {
        lemma_in_groups_one(cat.drop_last(), c);
        let x = cat.last();
        assert(seq![c].contains(x.carrier) == (x.carrier == c)) by {
            if x.carrier == c {
                assert(seq![c][0] == c);
            }
        }
        assert(of_carrier(c)(x) == (x.carrier == c));
        let sub = cat.drop_last().filter(of_carrier(c));
        assert(cat.filter(of_carrier(c)) == (if of_carrier(c)(x) { sub.push(x) } else { sub }));
        assert(in_groups(cat, seq![c]) == (if seq![c].contains(x.carrier) {
            in_groups(cat.drop_last(), seq![c]).push(x)
        } else {
            in_groups(cat.drop_last(), seq![c])
        }));
    }
}

/// A one-carrier keyword: the selection is every catalog node of that
/// carrier, each once, in catalog order.
proof fn lemma_one_carrier_keyword(kw: Seq<char>, c: Carrier, cat: Seq<SpeedNodeV>)
    requires
        kw.len() == 2,
        forall|i: int| 0 <= i < 2 ==> 'a' <= #[trigger] kw[i] <= 'z',
        Carrier::group_spec(kw) == Some(seq![c]),
        kw != "al"@,
    ensures
        selection_spec(kw, cat) == Ok::<SelectionV, Seq<char>>(
            SelectionV::Nodes(add_all(Seq::empty(), cat.filter(of_carrier(c))))),
{
    reveal_strlit("list");
    reveal_strlit("all");
    assert(!crate::text::is_space(kw[0]));
    assert(!crate::text::is_space(kw[1]));
    assert(crate::text::lead_spaces(kw) == 0);
    assert(crate::text::trim_start(kw) =~= kw);
    assert(crate::text::trail_spaces(kw) == 0);
    assert(trim(kw) =~= kw);
    assert(ascii_lower(kw) =~= kw);
    assert(!eq_ignore_case(kw, "list"@)) by {
        assert(ascii_lower(kw).len() == 2);
        assert(ascii_lower("list"@).len() == 4);
    }
    reveal_with_fuel(crate::text::split_on, 3);
    assert(kw[1] != ',');
    assert(kw.drop_last().drop_last() =~= Seq::<char>::empty());
    assert(kw.drop_last()[0] == kw[0]);
    assert(seq![kw[0]].push(kw[1]) =~= kw);
    assert(Seq::<char>::empty().push(kw[0]) =~= seq![kw[0]]);
    assert(split_commas(kw) =~= seq![kw]);
    assert(seq![kw].drop_last() =~= Seq::<Seq<char>>::empty());
    assert(kw != "all"@);
    lemma_in_groups_one(cat, c);
    assert(trim(kw).len() == 2);
    assert(apply_items(Seq::<Seq<char>>::empty(), cat) == Ok::<Seq<SpeedNodeV>, Seq<char>>(Seq::empty()));
    assert(apply_items(seq![kw], cat) == apply_item(apply_items(Seq::<Seq<char>>::empty(), cat), kw, cat));
    assert(apply_item(Ok(Seq::empty()), kw, cat) == Ok::<Seq<SpeedNodeV>, Seq<char>>(add_all(Seq::empty(), in_groups(cat, seq![c]))));
    assert(apply_items(split_commas(trim(kw)), cat) == Ok::<Seq<SpeedNodeV>, Seq<char>>(add_all(Seq::empty(), in_groups(cat, seq![c]))));
}

/// The keywords `ct`, `cu` and `cm` select every catalog node of China
/// Telecom, China Unicom and China Mobile respectively, each once, in catalog
/// order, and nothing else.
pub proof fn lemma_carrier_keywords(cat: Seq<SpeedNodeV>)
    ensures
        selection_spec("ct"@, cat) == Ok::<SelectionV, Seq<char>>(
            SelectionV::Nodes(add_all(Seq::empty(), cat.filter(of_carrier(Carrier::Telecom))))),
        selection_spec("cu"@, cat) == Ok::<SelectionV, Seq<char>>(
            SelectionV::Nodes(add_all(Seq::empty(), cat.filter(of_carrier(Carrier::Unicom))))),
        selection_spec("cm"@, cat) == Ok::<SelectionV, Seq<char>>(
            SelectionV::Nodes(add_all(Seq::empty(), cat.filter(of_carrier(Carrier::Mobile))))),
{
    reveal_strlit("ct");
    reveal_strlit("cu");
    reveal_strlit("cm");
    reveal_strlit("al");
    lemma_one_carrier_keyword("ct"@, Carrier::Telecom, cat);
    lemma_one_carrier_keyword("cu"@, Carrier::Unicom, cat);
    lemma_one_carrier_keyword("cm"@, Carrier::Mobile, cat);
}

/// The test that a node's carrier is one of `g`.
pub open spec fn in_carriers(g: Seq<Carrier>) -> spec_fn(SpeedNodeV) -> bool {
    |n: SpeedNodeV| g.contains(n.carrier)
}

proof fn lemma_in_groups_filter(cat: Seq<SpeedNodeV>, g: Seq<Carrier>)
    ensures
        in_groups(cat, g) == cat.filter(in_carriers(g)),
    decreases cat.len(),
{
    reveal(Seq::filter);
    if cat.len() == 0 {
        assert(cat.filter(in_carriers(g)) =~= Seq::<SpeedNodeV>::empty());
    } else {
        lemma_in_groups_filter(cat.drop_last(), g);
        let x = cat.last();
        assert(in_carriers(g)(x) == g.contains(x.carrier));
        let sub = cat.drop_last().filter(in_carriers(g));
        assert(cat.filter(in_carriers(g)) == (if in_carriers(g)(x) { sub.push(x) } else { sub }));
    }
}

/// A group keyword written in lower-case letters selects the catalog nodes
/// of its carriers.
proof fn lemma_group_keyword(kw: Seq<char>, g: Seq<Carrier>, cat: Seq<SpeedNodeV>)
    requires
        kw.len() >= 1,
        forall|i: int| 0 <= i < kw.len() ==> 'a' <= #[trigger] kw[i] <= 'z',
        Carrier::group_spec(kw) == Some(g),
        kw != "all"@,
        kw != "list"@,
    ensures
        selection_spec(kw, cat) == Ok::<SelectionV, Seq<char>>(
            SelectionV::Nodes(add_all(Seq::empty(), cat.filter(in_carriers(g))))),
{
    assert(!crate::text::is_space(kw[0]));
    assert(!crate::text::is_space(kw.last()));
    assert(crate::text::lead_spaces(kw) == 0);
    assert(crate::text::trim_start(kw) =~= kw);
    assert(crate::text::trail_spaces(kw) == 0);
    assert(trim(kw) =~= kw);
    assert(ascii_lower(kw) =~= kw);
    assert(ascii_lower("list"@) =~= "list"@) by {
        reveal_strlit("list");
    }
    assert(!eq_ignore_case(kw, "list"@));
    crate::text::lemma_split_suffix(Seq::empty(), kw, ',');
    assert(Seq::<char>::empty() + kw =~= kw);
    assert(split_commas(Seq::<char>::empty()) == seq![Seq::<char>::empty()]);
    assert(seq![Seq::<char>::empty()].update(0, Seq::<char>::empty() + kw) =~= seq![kw]);
    assert(split_commas(kw) =~= seq![kw]);
    assert(seq![kw].drop_last() =~= Seq::<Seq<char>>::empty());
    lemma_in_groups_filter(cat, g);
    assert(apply_items(Seq::<Seq<char>>::empty(), cat) == Ok::<Seq<SpeedNodeV>, Seq<char>>(Seq::empty()));
    assert(apply_items(seq![kw], cat) == apply_item(apply_items(Seq::<Seq<char>>::empty(), cat), kw, cat));
}

/// Every group keyword selects the catalog nodes of its carriers, each once,
/// in catalog order: `hk` Hong Kong, `edu` education network, `us`, `jp`,
/// `sg` the United States, Japan and Singapore, `cn` the three mainland
/// carriers and `intl` the United States, Japan and Singapore together.
pub proof fn lemma_group_keywords(cat: Seq<SpeedNodeV>)
    ensures
        selection_spec("hk"@, cat) == Ok::<SelectionV, Seq<char>>(
            SelectionV::Nodes(add_all(Seq::empty(), cat.filter(in_carriers(seq![Carrier::Hk]))))),
        selection_spec("edu"@, cat) == Ok::<SelectionV, Seq<char>>(
            SelectionV::Nodes(add_all(Seq::empty(), cat.filter(in_carriers(seq![Carrier::Edu]))))),
        selection_spec("us"@, cat) == Ok::<SelectionV, Seq<char>>(
            SelectionV::Nodes(add_all(Seq::empty(), cat.filter(in_carriers(seq![Carrier::Us]))))),
        selection_spec("jp"@, cat) == Ok::<SelectionV, Seq<char>>(
            SelectionV::Nodes(add_all(Seq::empty(), cat.filter(in_carriers(seq![Carrier::Jp]))))),
        selection_spec("sg"@, cat) == Ok::<SelectionV, Seq<char>>(
            SelectionV::Nodes(add_all(Seq::empty(), cat.filter(in_carriers(seq![Carrier::Sg]))))),
        selection_spec("cn"@, cat) == Ok::<SelectionV, Seq<char>>(SelectionV::Nodes(add_all(Seq::empty(),
            cat.filter(in_carriers(seq![Carrier::Telecom, Carrier::Unicom, Carrier::Mobile]))))),
        selection_spec("intl"@, cat) == Ok::<SelectionV, Seq<char>>(SelectionV::Nodes(add_all(Seq::empty(),
            cat.filter(in_carriers(seq![Carrier::Us, Carrier::Jp, Carrier::Sg]))))),
{
    reveal_strlit("hk");
    reveal_strlit("edu");
    reveal_strlit("us");
    reveal_strlit("jp");
    reveal_strlit("sg");
    reveal_strlit("cn");
    reveal_strlit("intl");
    reveal_strlit("ct");
    reveal_strlit("cu");
    reveal_strlit("cm");
    reveal_strlit("all");
    reveal_strlit("list");
    lemma_group_keyword("hk"@, seq![Carrier::Hk], cat);
    lemma_group_keyword("edu"@, seq![Carrier::Edu], cat);
    lemma_group_keyword("us"@, seq![Carrier::Us], cat);
    lemma_group_keyword("jp"@, seq![Carrier::Jp], cat);
    lemma_group_keyword("sg"@, seq![Carrier::Sg], cat);
    lemma_group_keyword("cn"@, seq![Carrier::Telecom, Carrier::Unicom, Carrier::Mobile], cat);
    lemma_group_keyword("intl"@, seq![Carrier::Us, Carrier::Jp, Carrier::Sg], cat);
}

/// What a carrier keyword selects: only nodes of that carrier, and every
/// catalog node of that carrier (by id and name).
pub proof fn lemma_carrier_keyword_members(kw: Seq<char>, c: Carrier, cat: Seq<SpeedNodeV>)
    requires
        (kw == "ct"@ && c == Carrier::Telecom) || (kw == "cu"@ && c == Carrier::Unicom)
            || (kw == "cm"@ && c == Carrier::Mobile),
    ensures
        selection_spec(kw, cat) matches Ok(SelectionV::Nodes(v)) && (forall|i: int| 0 <= i < v.len() ==> (#[trigger] v[i]).carrier == c)
            && (forall|j: int| 0 <= j < cat.len() && (#[trigger] cat[j]).carrier == c ==> has_node(v, cat[j])),
{
    lemma_carrier_keywords(cat);
    let pred = of_carrier(c);
    let f = cat.filter(pred);
    let v = add_all(Seq::empty(), f);
    lemma_add_all_from(Seq::empty(), f);
    lemma_add_all_has(Seq::empty(), f);
    cat.filter_lemma(pred);
    assert forall|i: int| 0 <= i < v.len() implies (#[trigger] v[i]).carrier == c by {
        assert(f.contains(v[i]));
        let k = choose|k: int| 0 <= k < f.len() && f[k] == v[i];
        assert(pred(f[k]));
    }
    assert forall|j: int| 0 <= j < cat.len() && (#[trigger] cat[j]).carrier == c implies has_node(v, cat[j]) by {
        assert(pred(cat[j]));
        assert(f.contains(cat[j]));
        let k = choose|k: int| 0 <= k < f.len() && f[k] == cat[j];
        assert(has_node(v, f[k]));
    }
}

/// A configured node: no server id, the carrier read leniently, the host
/// given, not in the default selection.
pub open spec fn custom_view(c: CustomNode) -> SpeedNodeV {
    SpeedNodeV {
        id: 0,
        name: c.name@,
        carrier: Carrier::lenient_spec(c.carrier@),
        search: Seq::empty(),
        host: Some(c.host@),
        default: false,
    }
}

/// The catalog followed by the configured nodes.
pub fn with_custom(cat: Vec<SpeedNode>, customs: Option<&Vec<CustomNode>>) -> (r: Vec<SpeedNode>)
    ensures
        nodes(r@) == nodes(cat@) + (match customs {
            Some(cs) => cs@.map_values(|c: CustomNode| custom_view(c)),
            None => Seq::empty(),
        }),
{
    let mut r = cat;
    let ghost base = nodes(r@);
    match customs {
        Some(cs) => {
            let ghost m = cs@.map_values(|c: CustomNode| custom_view(c));
            let mut i: usize = 0;
            while i < cs.len()
                invariant
                    i <= cs@.len(),
                    m == cs@.map_values(|c: CustomNode| custom_view(c)),
                    nodes(r@) == base + m.take(i as int),
                decreases cs.len() - i,
            {
                let cu = &cs[i];
                let n = SpeedNode {
                    id: 0,
                    name: cu.name.clone(),
                    carrier: Carrier::from_str_lenient(cu.carrier.as_str()),
                    search: String::new(),
                    host: Some(cu.host.clone()),
                    default: false,
                };
                let ghost prev = r@;
                r.push(n);
                assert(n@ == custom_view(cs@[i as int]));
                assert(nodes(r@) =~= nodes(prev).push(n@));
                assert(m.take(i + 1) =~= m.take(i as int).push(m[i as int]));
                assert(nodes(r@) =~= base + m.take(i + 1));
                i += 1;
            }
            assert(m.take(cs@.len() as int) =~= m);
        },
        None => {
            assert(nodes(r@) =~= base + Seq::<SpeedNodeV>::empty());
        },
    }
    r
}

// ───────────────────────── host lookup ─────────────────────────

/// The host of the first entry whose `id` is the text `id_text`; none where
/// that entry has no text `host` or no entry matches.
pub open spec fn host_in(items: Seq<Json>, id_text: Seq<char>) -> Option<Seq<char>>
    decreases items.len(),
{
    if items.len() == 0 {
        None
    } else {
        match field(items[0], "id"@) {
            Some(Json::Str(s)) => if s@ == id_text {
                text_val(field(items[0], "host"@))
            } else {
                host_in(items.drop_first(), id_text)
            },
            _ => host_in(items.drop_first(), id_text),
        }
    }
}

/// Host of server `id` in a node-search answer (a JSON array of servers).
pub open spec fn host_for(doc: Json, id: u32) -> Option<Seq<char>> {
    match doc {
        Json::Arr(items) => host_in(items@, dec_text(id as nat)),
        _ => None,
    }
}

/// Host of server `id` in a parsed node-search answer.
pub fn host_from_doc(doc: &Json, id: u32) -> (r: Option<String>)
    ensures
        (match r { Some(h) => Some(h@), None => None }) == host_for(*doc, id),
{
    let items = match doc {
        Json::Arr(items) => items,
        _ => return None,
    };
    let want = uint_text(id as u64);
    let wc = chars_of(want.as_str());
    let mut i: usize = 0;
    assert(items@.skip(0) =~= items@);
    while i < items.len()
        invariant
            i <= items@.len(),
            wc@ == dec_text(id as nat),
            host_for(*doc, id) == host_in(items@.skip(i as int), dec_text(id as nat)),
            *doc matches Json::Arr(v) && v@ == items@,
        decreases items.len() - i,
    {
        assert(items@.skip(i as int).drop_first() =~= items@.skip(i + 1));
        assert(items@.skip(i as int)[0] == items@[i as int]);
        let item = &items[i];
        match get_field(item, "id") {
            Some(Json::Str(s)) => {
                let sc = chars_of(s.as_str());
                if crate::text::same_chars(sc.as_slice(), wc.as_slice()) {
                    return match get_field(item, "host") {
                        Some(Json::Str(h)) => Some(h.clone()),
                        _ => None,
                    };
                }
            },
            _ => {},
        }
        i += 1;
    }
    None
}

/// Host of server `id` in the node-search answer `body`; none where the
/// body is not JSON.
pub fn pick_host_from_json(body: &str, id: u32) -> (r: Option<String>)
    ensures
        (match r { Some(h) => Some(h@), None => None }) == (match parsed_json(body@) {
            Ok(doc) => host_for(doc, id),
            Err(_) => None,
        }),
{
    match parse_json(body) {
        Ok(doc) => host_from_doc(&doc, id),
        Err(_) => None,
    }
}

/// A catalog row: the node's id, carrier and name.
pub open spec fn catalog_row(n: SpeedNodeV) -> Seq<(Seq<char>, Option<TableColor>)> {
    seq![(dec_text(n.id as nat), None::<TableColor>), (n.carrier.label_text(), None::<TableColor>), (n.name, None::<TableColor>)]
}

/// The rows of the catalog listing: the nodes with an id, in order.
pub open spec fn catalog_rows(ns: Seq<SpeedNodeV>) -> Seq<Seq<(Seq<char>, Option<TableColor>)>>
    decreases ns.len(),
{
    if ns.len() == 0 {
        Seq::empty()
    } else {
        catalog_rows(ns.drop_last()) + (if ns.last().id != 0 { seq![catalog_row(ns.last())] } else { Seq::empty() })
    }
}

pub open spec fn catalog_header(lang: Lang) -> Seq<Seq<char>> {
    seq![lang.text("ID"@, "ID"@), lang.text("运营商"@, "Carrier"@), lang.text("节点"@, "Node"@)]
}

/// The `--speedtest=list` listing: title, how to select, and the boxed table
/// of the numbered nodes.
pub open spec fn catalog_text(ns: Seq<SpeedNodeV>, lang: Lang) -> Seq<char> {
    "═══ "@ + lang.text("测速节点目录"@, "Speedtest node catalog"@) + " ═══\n"@
        + lang.text("用 --speedtest=<分组/id,逗号分隔> 选择,如 --speedtest=cn,jp"@,
            "Select via --speedtest=<group/id,comma>, e.g. --speedtest=cn,jp"@) + "\n"@
        + boxed_table_text(catalog_header(lang), catalog_rows(ns), false) + "\n"@
}

proof fn lemma_catalog_rows_plain(ns: Seq<SpeedNodeV>)
    ensures
        plain_rows(catalog_rows(ns)),
    decreases ns.len(),
{
    if ns.len() > 0 {
        lemma_catalog_rows_plain(ns.drop_last());
        let last: Seq<Seq<(Seq<char>, Option<TableColor>)>> =
            if ns.last().id != 0 { seq![catalog_row(ns.last())] } else { Seq::empty() };
        assert(plain_rows(last)) by {
            assert forall|i: int, j: int| 0 <= i < last.len() && 0 <= j < last[i].len()
                implies (#[trigger] last[i][j]).1 is None by {
                assert(last[i] == catalog_row(ns.last()));
            }
        }
        lemma_plain_rows_concat(catalog_rows(ns.drop_last()), last);
    }
}

/// The `--speedtest=list` listing (see `catalog_text`).
pub fn render_catalog(catalog: &[SpeedNode], lang: Lang) -> (out: String)
    ensures
        out@ == catalog_text(nodes(catalog@), lang),
{
    let ghost ns = nodes(catalog@);
    let mut rows: Vec<Vec<CellText>> = Vec::new();
    let mut i: usize = 0;
    while i < catalog.len()
        invariant
            i <= catalog@.len(),
            ns == nodes(catalog@),
            cells_view(rows@) == catalog_rows(ns.take(i as int)),
        decreases catalog.len() - i,
    {
        assert(ns.take(i + 1).drop_last() =~= ns.take(i as int));
        assert(ns.take(i + 1).last() == catalog@[i as int]@);
        let n = &catalog[i];
        if n.id != 0 {
            let row: Vec<CellText> = vec![
                (uint_text(n.id as u64), None), (owned(n.carrier.label()), None), (n.name.clone(), None),
            ];
            assert(crate::render::table::row_view(row) =~= catalog_row(n@));
            add_row(&mut rows, row);
            assert(cells_view(rows@) =~= catalog_rows(ns.take(i + 1)));
        } else {
            assert(catalog_rows(ns.take(i + 1)) =~= catalog_rows(ns.take(i as int)));
        }
        i += 1;
    }
    assert(ns.take(catalog@.len() as int) =~= ns);
    let mut out = owned("═══ ");
    push_text(&mut out, lang.pick("测速节点目录", "Speedtest node catalog"));
    push_text(&mut out, " ═══\n");
    push_text(&mut out, lang.pick("用 --speedtest=<分组/id,逗号分隔> 选择,如 --speedtest=cn,jp",
        "Select via --speedtest=<group/id,comma>, e.g. --speedtest=cn,jp"));
    push_text(&mut out, "\n");
    let header: Vec<String> = vec![owned(lang.pick("ID", "ID")), owned(lang.pick("运营商", "Carrier")), owned(lang.pick("节点", "Node"))];
    assert(texts(header@) =~= catalog_header(lang));
    proof {
        lemma_catalog_rows_plain(ns);
    }
    let t = boxed_table(&header, &rows);
    push_text(&mut out, t.as_str());
    push_text(&mut out, "\n");
    out
}

} // verus!
