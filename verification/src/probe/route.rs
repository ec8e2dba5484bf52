//! Return-route identification towards the three Chinese carriers: reference
//! targets, backbone-ASN line classification, ICMP packet building/parsing,
//! traceroute bookkeeping and the report section.

use vstd::prelude::*;
use vstd::string::*;
use crate::i18n::Lang;
use crate::net::Ipv4Addr;
use crate::text::{owned, push_text};

pub mod engine;
pub mod terminal;

verus! {

/// Default maximum number of hops.
pub const MAX_HOPS: u8 = 30;

// ───────────────────────── reference targets ─────────────────────────

#[derive(Debug, Clone, Copy, PartialEq, Eq, Structural)]
pub enum Carrier {
    Telecom,
    Unicom,
    Mobile,
}

impl Carrier {
    pub open spec fn label_text(self, lang: Lang) -> Seq<char> {
        match self {
            Carrier::Telecom => lang.text("电信"@, "Telecom"@),
            Carrier::Unicom => lang.text("联通"@, "Unicom"@),
            Carrier::Mobile => lang.text("移动"@, "Mobile"@),
        }
    }

    pub fn label(self, lang: Lang) -> (r: &'static str)
        ensures
            r@ == self.label_text(lang),
    {
        match self {
            Carrier::Telecom => lang.pick("电信", "Telecom"),
            Carrier::Unicom => lang.pick("联通", "Unicom"),
            Carrier::Mobile => lang.pick("移动", "Mobile"),
        }
    }

    /// Display order: Telecom, Unicom, Mobile.
    pub open spec fn rank(self) -> nat {
        match self {
            Carrier::Telecom => 0,
            Carrier::Unicom => 1,
            Carrier::Mobile => 2,
        }
    }
}

/// Test city (four per carrier).
#[derive(Debug, Clone, Copy, PartialEq, Eq, Structural)]
pub enum City {
    Beijing,
    Shanghai,
    Guangzhou,
    Chengdu,
}

impl City {
    /// Stable display order: Beijing, Shanghai, Guangzhou, Chengdu.
    pub fn order(self) -> (r: u8)
        ensures
            r == (match self { City::Beijing => 0u8, City::Shanghai => 1u8, City::Guangzhou => 2u8, City::Chengdu => 3u8 }),
    {
        match self {
            City::Beijing => 0,
            City::Shanghai => 1,
            City::Guangzhou => 2,
            City::Chengdu => 3,
        }
    }
}

/// The twelve backbone reference nodes: three carriers by four cities.
pub fn targets() -> (t: Vec<(Carrier, City, &'static str, Ipv4Addr)>)
    ensures
        t@.len() == 12,
        forall|i: int| 0 <= i < 12 ==> (#[trigger] t@[i]).0 == (if i < 4 { Carrier::Telecom } else if i < 8 { Carrier::Unicom } else { Carrier::Mobile }),
        forall|i: int| 0 <= i < 12 ==> (#[trigger] t@[i]).1 == (if i % 4 == 0 { City::Beijing } else if i % 4 == 1 { City::Shanghai } else if i % 4 == 2 { City::Guangzhou } else { City::Chengdu }),
{
    let t = vec![
        (Carrier::Telecom, City::Beijing, "北京电信", Ipv4Addr::new(219, 141, 140, 10)),
        (Carrier::Telecom, City::Shanghai, "上海电信", Ipv4Addr::new(202, 96, 209, 133)),
        (Carrier::Telecom, City::Guangzhou, "广州电信", Ipv4Addr::new(58, 60, 188, 222)),
        (Carrier::Telecom, City::Chengdu, "成都电信", Ipv4Addr::new(61, 139, 2, 69)),
        (Carrier::Unicom, City::Beijing, "北京联通", Ipv4Addr::new(202, 106, 195, 68)),
        (Carrier::Unicom, City::Shanghai, "上海联通", Ipv4Addr::new(210, 22, 97, 1)),
        (Carrier::Unicom, City::Guangzhou, "广州联通", Ipv4Addr::new(210, 21, 196, 6)),
        (Carrier::Unicom, City::Chengdu, "成都联通", Ipv4Addr::new(119, 6, 6, 6)),
        (Carrier::Mobile, City::Beijing, "北京移动", Ipv4Addr::new(221, 179, 155, 161)),
        (Carrier::Mobile, City::Shanghai, "上海移动", Ipv4Addr::new(211, 136, 112, 200)),
        (Carrier::Mobile, City::Guangzhou, "广州移动", Ipv4Addr::new(120, 196, 165, 24)),
        (Carrier::Mobile, City::Chengdu, "成都移动", Ipv4Addr::new(211, 137, 96, 205)),
    ];
    t
}

// ───────────────────────── return-line types ─────────────────────────

#[derive(Debug, Clone, Copy, PartialEq, Eq, Structural)]
pub enum LineType {
    /// Telecom CN2 GIA (AS4809 throughout).
    Cn2gia,
    /// Telecom CN2 GT (AS4809 via the 163 backbone).
    Cn2gt,
    /// Telecom CN2 (AS4809, GIA/GT undecided).
    Cn2,
    /// Telecom 163 (AS4134).
    Chinanet163,
    /// Unicom 9929/CUII (AS9929/AS4847).
    Cuii9929,
    /// Unicom CUG (AS10099).
    Cug,
    /// Unicom 169 (AS4837/AS4808/AS17623).
    China169,
    /// Mobile CMIN2 (AS58807).
    Cmin2,
    /// Mobile CMI (AS58453).
    Cmi,
    /// Mobile CMNET (AS9808/AS56040/AS56048/AS134774).
    Cmnet,
    Unknown,
}

/// Line quality: boutique > premium > standard.
#[derive(Debug, Clone, Copy, PartialEq, Eq, Structural)]
pub enum Grade {
    Boutique,
    Premium,
    Standard,
    Unknown,
}

impl LineType {
    pub open spec fn label_text(self, lang: Lang) -> Seq<char> {
        match self {
            LineType::Cn2gia => lang.text("电信 CN2 GIA (AS4809)"@, "Telecom CN2 GIA (AS4809)"@),
            LineType::Cn2gt => lang.text("电信 CN2 GT (AS4809)"@, "Telecom CN2 GT (AS4809)"@),
            LineType::Cn2 => lang.text("电信 CN2 (AS4809)"@, "Telecom CN2 (AS4809)"@),
            LineType::Chinanet163 => lang.text("电信 163 (AS4134)"@, "Telecom 163 (AS4134)"@),
            LineType::Cuii9929 => lang.text("联通 9929/CUII (AS9929)"@, "Unicom 9929/CUII (AS9929)"@),
            LineType::Cug => lang.text("联通 CUG (AS10099)"@, "Unicom CUG (AS10099)"@),
            LineType::China169 => lang.text("联通 169 (AS4837)"@, "Unicom 169 (AS4837)"@),
            LineType::Cmin2 => lang.text("移动 CMIN2 (AS58807)"@, "Mobile CMIN2 (AS58807)"@),
            LineType::Cmi => lang.text("移动 CMI (AS58453)"@, "Mobile CMI (AS58453)"@),
            LineType::Cmnet => lang.text("移动 CMNET (AS9808)"@, "Mobile CMNET (AS9808)"@),
            LineType::Unknown => lang.text("未识别"@, "Unknown"@),
        }
    }

    pub fn label(self, lang: Lang) -> (r: &'static str)
        ensures
            r@ == self.label_text(lang),
    {
        match self {
            LineType::Cn2gia => lang.pick("电信 CN2 GIA (AS4809)", "Telecom CN2 GIA (AS4809)"),
            LineType::Cn2gt => lang.pick("电信 CN2 GT (AS4809)", "Telecom CN2 GT (AS4809)"),
            LineType::Cn2 => lang.pick("电信 CN2 (AS4809)", "Telecom CN2 (AS4809)"),
            LineType::Chinanet163 => lang.pick("电信 163 (AS4134)", "Telecom 163 (AS4134)"),
            LineType::Cuii9929 => lang.pick("联通 9929/CUII (AS9929)", "Unicom 9929/CUII (AS9929)"),
            LineType::Cug => lang.pick("联通 CUG (AS10099)", "Unicom CUG (AS10099)"),
            LineType::China169 => lang.pick("联通 169 (AS4837)", "Unicom 169 (AS4837)"),
            LineType::Cmin2 => lang.pick("移动 CMIN2 (AS58807)", "Mobile CMIN2 (AS58807)"),
            LineType::Cmi => lang.pick("移动 CMI (AS58453)", "Mobile CMI (AS58453)"),
            LineType::Cmnet => lang.pick("移动 CMNET (AS9808)", "Mobile CMNET (AS9808)"),
            LineType::Unknown => lang.pick("未识别", "Unknown"),
        }
    }

    pub open spec fn grade_of(self) -> Grade {
        match self {
            LineType::Cn2gia | LineType::Cmin2 => Grade::Boutique,
            LineType::Cn2gt | LineType::Cn2 | LineType::Cuii9929 | LineType::Cug => Grade::Premium,
            LineType::Chinanet163 | LineType::China169 | LineType::Cmi | LineType::Cmnet => Grade::Standard,
            LineType::Unknown => Grade::Unknown,
        }
    }

    /// Quality grade of the line.
    pub fn grade(self) -> (g: Grade)
        ensures
            g == self.grade_of(),
    {
        match self {
            LineType::Cn2gia | LineType::Cmin2 => Grade::Boutique,
            LineType::Cn2gt | LineType::Cn2 | LineType::Cuii9929 | LineType::Cug => Grade::Premium,
            LineType::Chinanet163 | LineType::China169 | LineType::Cmi | LineType::Cmnet => Grade::Standard,
            LineType::Unknown => Grade::Unknown,
        }
    }
}

impl Grade {
    pub open spec fn label_text(self, lang: Lang) -> Seq<char> {
        match self {
            Grade::Boutique => lang.text("[精品线路]"@, "[Boutique]"@),
            Grade::Premium => lang.text("[优质线路]"@, "[Premium]"@),
            Grade::Standard => lang.text("[普通线路]"@, "[Standard]"@),
            Grade::Unknown => "—"@,
        }
    }

    /// Bracketed label such as `[精品线路]`.
    pub fn label(self, lang: Lang) -> (r: &'static str)
        ensures
            r@ == self.label_text(lang),
    {
        match self {
            Grade::Boutique => lang.pick("[精品线路]", "[Boutique]"),
            Grade::Premium => lang.pick("[优质线路]", "[Premium]"),
            Grade::Standard => lang.pick("[普通线路]", "[Standard]"),
            Grade::Unknown => "—",
        }
    }
}

/// Backbone ASN → (owning carrier, line type, priority); a higher priority is a better line.
pub open spec fn backbone_spec(asn: u32) -> Option<(Carrier, LineType, u8)> {
    if asn == 4809 {
        Some((Carrier::Telecom, LineType::Cn2, 9u8))
    } else if asn == 4134 {
        Some((Carrier::Telecom, LineType::Chinanet163, 3u8))
    } else if asn == 9929 {
        Some((Carrier::Unicom, LineType::Cuii9929, 9u8))
    } else if asn == 4847 {
        Some((Carrier::Unicom, LineType::Cuii9929, 8u8))
    } else if asn == 10099 {
        Some((Carrier::Unicom, LineType::Cug, 7u8))
    } else if asn == 4837 || asn == 4808 || asn == 17623 {
        Some((Carrier::Unicom, LineType::China169, 3u8))
    } else if asn == 58807 {
        Some((Carrier::Mobile, LineType::Cmin2, 9u8))
    } else if asn == 58453 {
        Some((Carrier::Mobile, LineType::Cmi, 4u8))
    } else if asn == 9808 || asn == 56040 || asn == 56048 || asn == 134774 {
        Some((Carrier::Mobile, LineType::Cmnet, 3u8))
    } else {
        None
    }
}

pub fn backbone_of(asn: u32) -> (r: Option<(Carrier, LineType, u8)>)
    ensures
        r == backbone_spec(asn),
{
    match asn {
        4809 => Some((Carrier::Telecom, LineType::Cn2, 9)),
        4134 => Some((Carrier::Telecom, LineType::Chinanet163, 3)),
        9929 => Some((Carrier::Unicom, LineType::Cuii9929, 9)),
        4847 => Some((Carrier::Unicom, LineType::Cuii9929, 8)),
        10099 => Some((Carrier::Unicom, LineType::Cug, 7)),
        4837 | 4808 | 17623 => Some((Carrier::Unicom, LineType::China169, 3)),
        58807 => Some((Carrier::Mobile, LineType::Cmin2, 9)),
        58453 => Some((Carrier::Mobile, LineType::Cmi, 4)),
        9808 | 56040 | 56048 | 134774 => Some((Carrier::Mobile, LineType::Cmnet, 3)),
        _ => None,
    }
}

/// The backbone networks, one row each: AS number, owning carrier, line
/// type and priority (a higher priority is a better line). Telecom: CN2
/// (AS4809) and 163 (AS4134); Unicom: 9929/CUII (AS9929, AS4847), CUG
/// (AS10099) and 169 (AS4837, AS4808, AS17623); Mobile: CMIN2 (AS58807), CMI
/// (AS58453) and CMNET (AS9808, AS56040, AS56048, AS134774).
pub open spec fn backbone_table() -> Seq<(u32, Carrier, LineType, u8)> {
    seq![
        (4809u32, Carrier::Telecom, LineType::Cn2, 9u8),
        (4134u32, Carrier::Telecom, LineType::Chinanet163, 3u8),
        (9929u32, Carrier::Unicom, LineType::Cuii9929, 9u8),
        (4847u32, Carrier::Unicom, LineType::Cuii9929, 8u8),
        (10099u32, Carrier::Unicom, LineType::Cug, 7u8),
        (4837u32, Carrier::Unicom, LineType::China169, 3u8),
        (4808u32, Carrier::Unicom, LineType::China169, 3u8),
        (17623u32, Carrier::Unicom, LineType::China169, 3u8),
        (58807u32, Carrier::Mobile, LineType::Cmin2, 9u8),
        (58453u32, Carrier::Mobile, LineType::Cmi, 4u8),
        (9808u32, Carrier::Mobile, LineType::Cmnet, 3u8),
        (56040u32, Carrier::Mobile, LineType::Cmnet, 3u8),
        (56048u32, Carrier::Mobile, LineType::Cmnet, 3u8),
        (134774u32, Carrier::Mobile, LineType::Cmnet, 3u8)
    ]
}

/// The first row of `t` at or after `i` for this AS number.
pub open spec fn table_row(t: Seq<(u32, Carrier, LineType, u8)>, asn: u32, i: int) -> Option<(Carrier, LineType, u8)>
    decreases t.len() - i,
{
    if i < 0 || i >= t.len() {
        None
    } else if t[i].0 == asn {
        Some((t[i].1, t[i].2, t[i].3))
    } else {
        table_row(t, asn, i + 1)
    }
}

/// Every AS number is classified as its row of the backbone table says, and
/// one without a row is no backbone.
pub proof fn lemma_backbone_follows_table(asn: u32)
    ensures
        backbone_spec(asn) == table_row(backbone_table(), asn, 0),
{
    reveal_with_fuel(table_row, 16);
}

/// The priority of a backbone row where it belongs to the carrier.
pub open spec fn carrier_prio(b: Option<(Carrier, LineType, u8)>, c: Carrier) -> Option<u8> {
    match b {
        Some((c2, _, p2)) => if c2 == c { Some(p2) } else { None },
        None => None,
    }
}

/// The best backbone of a carrier seen so far, where every backbone of that
/// carrier on the path has a priority below `p`, is below `p` too.
proof fn lemma_best_below(s: Seq<u32>, c: Carrier, p: u8)
    requires
        forall|j: int| 0 <= j < s.len() ==> (carrier_prio(#[trigger] backbone_spec(s[j]), c) matches Some(p2) ==> p2 < p),
    ensures
        best_backbone(s, Some(c)) matches Some((_, q)) ==> q < p,
    decreases s.len(),
{
    if s.len() > 0 {
        assert forall|j: int| 0 <= j < s.drop_last().len() implies (carrier_prio(#[trigger] backbone_spec(s.drop_last()[j]), c) matches Some(p2) ==> p2 < p) by {
            assert(s.drop_last()[j] == s[j]);
        }
        lemma_best_below(s.drop_last(), c, p);
        assert(carrier_prio(backbone_spec(s[s.len() - 1]), c) matches Some(p2) ==> p2 < p);
    }
}

proof fn lemma_best_is(s: Seq<u32>, c: Carrier, k: int, lt: LineType, p: u8)
    requires
        0 <= k < s.len(),
        backbone_spec(s[k]) == Some((c, lt, p)),
        forall|j: int| 0 <= j < s.len() ==> (carrier_prio(#[trigger] backbone_spec(s[j]), c) matches Some(p2)
            ==> p2 <= p && (j < k ==> p2 < p)),
    ensures
        best_backbone(s, Some(c)) == Some((lt, p)),
    decreases s.len(),
{
    let d = s.drop_last();
    assert forall|j: int| 0 <= j < d.len() implies (carrier_prio(#[trigger] backbone_spec(d[j]), c) matches Some(p2)
        ==> p2 <= p && (j < k ==> p2 < p)) by {
        assert(d[j] == s[j]);
    }
    if k == s.len() - 1 {
        assert forall|j: int| 0 <= j < d.len() implies (carrier_prio(#[trigger] backbone_spec(d[j]), c) matches Some(p2) ==> p2 < p) by {
            assert(d[j] == s[j]);
        }
        lemma_best_below(d, c, p);
    } else {
        assert(d[k] == s[k]);
        lemma_best_is(d, c, k, lt, p);
        assert(carrier_prio(backbone_spec(s[s.len() - 1]), c) matches Some(p2) ==> p2 <= p);
    }
}

/// A carrier's return line is the line of its highest-priority backbone on
/// the path, by the backbone table; where several rows share the highest
/// priority, the first on the path counts.
pub proof fn lemma_carrier_line_by_table(carrier: Carrier, asns: Seq<u32>, k: int, lt: LineType, p: u8)
    requires
        0 <= k < asns.len(),
        table_row(backbone_table(), asns[k], 0) == Some((carrier, lt, p)),
        forall|j: int| 0 <= j < asns.len() ==> (carrier_prio(#[trigger] table_row(backbone_table(), asns[j], 0), carrier) matches Some(p2) ==> p2 <= p && (j < k ==> p2 < p)),
    ensures
        line_of(best_backbone(asns, Some(carrier))) == lt,
{
    lemma_backbone_follows_table(asns[k]);
    assert forall|j: int| 0 <= j < asns.len() implies (carrier_prio(#[trigger] backbone_spec(asns[j]), carrier) matches Some(p2)
        ==> p2 <= p && (j < k ==> p2 < p)) by {
        lemma_backbone_follows_table(asns[j]);
    }
    lemma_best_is(asns, carrier, k, lt, p);
}

/// A path without any backbone row of the carrier has no known line.
pub proof fn lemma_carrier_line_unknown(carrier: Carrier, asns: Seq<u32>)
    requires
        forall|j: int| 0 <= j < asns.len() ==> carrier_prio(#[trigger] table_row(backbone_table(), asns[j], 0), carrier) is None,
    ensures
        line_of(best_backbone(asns, Some(carrier))) == LineType::Unknown,
{
    assert forall|j: int| 0 <= j < asns.len() implies (carrier_prio(#[trigger] backbone_spec(asns[j]), carrier) matches Some(p2) ==> p2 < 0u8) by {
        lemma_backbone_follows_table(asns[j]);
    }
    lemma_best_below(asns, carrier, 0u8);
}

/// Fallback ASN from the address prefix, for hops without an AS from the geo service.
pub open spec fn prefix_asn(ip: Ipv4Addr) -> Option<u32> {
    if ip.a == 59 && ip.b == 43 {
        Some(4809u32)
    } else if ip.a == 202 && ip.b == 97 {
        Some(4134u32)
    } else if (ip.a == 218 && ip.b == 105) || (ip.a == 210 && ip.b == 51) {
        Some(9929u32)
    } else if ip.a == 219 && ip.b == 158 {
        Some(4837u32)
    } else if ip.a == 223 && ip.b == 120 && (ip.c == 16 || ip.c == 17 || ip.c == 19) {
        Some(58807u32)
    } else if ip.a == 223 && 118 <= ip.b <= 121 {
        Some(58453u32)
    } else {
        None
    }
}

pub fn asn_from_prefix(ip: Ipv4Addr) -> (r: Option<u32>)
    ensures
        r == prefix_asn(ip),
{
    let o = ip.octets();
    match (o[0], o[1], o[2]) {
        (59, 43, _) => Some(4809),
        (202, 97, _) => Some(4134),
        (218, 105, _) | (210, 51, _) => Some(9929),
        (219, 158, _) => Some(4837),
        (223, 120, 16) | (223, 120, 17) | (223, 120, 19) => Some(58807),
        (223, 118, _) | (223, 119, _) | (223, 120, _) | (223, 121, _) => Some(58453),
        _ => None,
    }
}

/// CN2 GIA/GT refinement: only a plain `Cn2` line changes; with a 59.43 hop it
/// becomes GT when a 202.97 (163 backbone) hop is also on the path, GIA otherwise.
pub open spec fn refine_spec(line: LineType, hops: Seq<Ipv4Addr>) -> LineType {
    if line != LineType::Cn2 {
        line
    } else if !(exists|i: int| 0 <= i < hops.len() && (#[trigger] hops[i]).a == 59 && hops[i].b == 43) {
        LineType::Cn2
    } else if exists|i: int| 0 <= i < hops.len() && (#[trigger] hops[i]).a == 202 && hops[i].b == 97 {
        LineType::Cn2gt
    } else {
        LineType::Cn2gia
    }
}

fn any_prefix(hops: &[Ipv4Addr], a: u8, b: u8) -> (r: bool)
    ensures
        r == exists|i: int| 0 <= i < hops@.len() && (#[trigger] hops@[i]).a == a && hops@[i].b == b,
{
    let mut i: usize = 0;
    while i < hops.len()
        invariant
            i <= hops@.len(),
            forall|j: int| 0 <= j < i ==> !((#[trigger] hops@[j]).a == a && hops@[j].b == b),
        decreases hops.len() - i,
    {
        if hops[i].a == a && hops[i].b == b {
            return true;
        }
        i += 1;
    }
    false
}

pub fn refine_cn2(line: LineType, hop_ips: &[Ipv4Addr]) -> (r: LineType)
    ensures
        r == refine_spec(line, hop_ips@),
{
    if line != LineType::Cn2 {
        return line;
    }
    if !any_prefix(hop_ips, 59, 43) {
        return LineType::Cn2;
    }
    if any_prefix(hop_ips, 202, 97) {
        LineType::Cn2gt
    } else {
        LineType::Cn2gia
    }
}

/// The best backbone among `asns`, keeping the first on ties; `only` restricts
/// the backbones to one carrier.
pub open spec fn best_backbone(asns: Seq<u32>, only: Option<Carrier>) -> Option<(LineType, u8)>
    decreases asns.len(),
{
    if asns.len() == 0 {
        None
    } else {
        let prev = best_backbone(asns.drop_last(), only);
        match backbone_spec(asns.last()) {
            Some((c, lt, p)) => if (only is None || only == Some(c)) && (prev matches Some((_, q)) ==> p > q) {
                Some((lt, p))
            } else {
                prev
            },
            None => prev,
        }
    }
}

pub open spec fn line_of(best: Option<(LineType, u8)>) -> LineType {
    match best {
        Some((lt, _)) => lt,
        None => LineType::Unknown,
    }
}

fn best_of(asns: &[u32], only: Option<Carrier>) -> (r: Option<(LineType, u8)>)
    ensures
        r == best_backbone(asns@, only),
{
    let mut best: Option<(LineType, u8)> = None;
    let mut i: usize = 0;
    while i < asns.len()
        invariant
            i <= asns@.len(),
            best == best_backbone(asns@.take(i as int), only),
        decreases asns.len() - i,
    {
        proof {
            assert(asns@.take(i + 1).drop_last() =~= asns@.take(i as int));
            assert(asns@.take(i + 1).last() == asns@[i as int]);
        }
        match backbone_of(asns[i]) {
            Some((c, lt, prio)) => {
                let carrier_ok = match only {
                    Some(k) => k == c,
                    None => true,
                };
                let better = match best {
                    Some((_, p)) => prio > p,
                    None => true,
                };
                if carrier_ok && better {
                    best = Some((lt, prio));
                }
            }
            None => {}
        }
        i += 1;
    }
    assert(asns@.take(asns@.len() as int) =~= asns@);
    best
}

/// The carrier's own return line: its highest-priority backbone on the path.
pub fn classify_line(carrier: Carrier, asns: &[u32]) -> (r: LineType)
    ensures
        r == line_of(best_backbone(asns@, Some(carrier))),
{
    match best_of(asns, Some(carrier)) {
        Some((lt, _)) => lt,
        None => LineType::Unknown,
    }
}

/// The international entry line: the highest-priority backbone of any carrier.
pub fn classify_entry(asns: &[u32]) -> (r: LineType)
    ensures
        r == line_of(best_backbone(asns@, None)),
{
    match best_of(asns, None) {
        Some((lt, _)) => lt,
        None => LineType::Unknown,
    }
}

/// `asn` is a backbone that counts for `only`.
pub open spec fn counts(asn: u32, only: Option<Carrier>) -> bool {
    match backbone_spec(asn) {
        Some((c, _, _)) => only is None || only == Some(c),
        None => false,
    }
}

pub open spec fn prio_of(asn: u32) -> u8 {
    match backbone_spec(asn) {
        Some((_, _, p)) => p,
        None => 0,
    }
}

pub open spec fn line_type_of(asn: u32) -> LineType {
    match backbone_spec(asn) {
        Some((_, l, _)) => l,
        None => LineType::Unknown,
    }
}

/// The chosen backbone is on the path, counts for the carrier, and no counting
/// backbone on the path has a higher priority; without one, nothing counts.
pub proof fn lemma_best_backbone_is_max(asns: Seq<u32>, only: Option<Carrier>)
    ensures
        match best_backbone(asns, only) {
            Some((lt, p)) => (exists|i: int| 0 <= i < asns.len() && counts(#[trigger] asns[i], only)
                    && line_type_of(asns[i]) == lt && prio_of(asns[i]) == p)
                && (forall|i: int| 0 <= i < asns.len() && counts(#[trigger] asns[i], only) ==> prio_of(asns[i]) <= p),
            None => forall|i: int| 0 <= i < asns.len() ==> !counts(#[trigger] asns[i], only),
        },
    decreases asns.len(),
{
    if asns.len() > 0 {
        let init = asns.drop_last();
        lemma_best_backbone_is_max(init, only);
        assert forall|i: int| 0 <= i < init.len() implies init[i] == asns[i] by {}
        if let Some((lt, p)) = best_backbone(asns, only) {
            if best_backbone(init, only) != best_backbone(asns, only) {
                assert(counts(asns[asns.len() - 1], only));
            } else {
                let i = choose|i: int| 0 <= i < init.len() && counts(#[trigger] init[i], only)
                    && line_type_of(init[i]) == lt && prio_of(init[i]) == p;
                assert(asns[i] == init[i]);
            }
        }
    }
}

/// Line classification does not depend on where non-backbone ASNs sit: the
/// result is that of the backbone ASNs alone, in their order.
pub open spec fn backbones_only(asns: Seq<u32>) -> Seq<u32> {
    asns.filter(|a: u32| backbone_spec(a) is Some)
}

pub proof fn lemma_line_ignores_other_asns(asns: Seq<u32>, only: Option<Carrier>)
    ensures
        best_backbone(asns, only) == best_backbone(backbones_only(asns), only),
    decreases asns.len(),
{
    reveal_with_fuel(Seq::filter, 1);
    if asns.len() > 0 {
        lemma_line_ignores_other_asns(asns.drop_last(), only);
        assert(backbones_only(asns.drop_last()) == backbones_only(asns).drop_last()
            || backbone_spec(asns.last()) is None);
        if backbone_spec(asns.last()) is Some {
            assert(backbones_only(asns) == backbones_only(asns.drop_last()).push(asns.last()));
            assert(backbones_only(asns).drop_last() =~= backbones_only(asns.drop_last()));
        } else {
            assert(backbones_only(asns) == backbones_only(asns.drop_last()));
        }
    }
}

/// Priority of a classification result (0 for none).
pub open spec fn best_prio(b: Option<(LineType, u8)>) -> u8 {
    match b {
        Some((_, p)) => p,
        None => 0,
    }
}

/// Within one carrier a priority names one line.
proof fn lemma_line_unique_per_prio(a: u32, b: u32, c: Carrier)
    requires
        counts(a, Some(c)),
        counts(b, Some(c)),
        prio_of(a) == prio_of(b),
    ensures
        line_type_of(a) == line_type_of(b),
{
}

/// A carrier's return line depends only on which ASNs occur on the path: two
/// paths with the same ASNs, in any order and any number of times, give the
/// same line and priority.
pub proof fn lemma_line_depends_on_asn_set(xs: Seq<u32>, ys: Seq<u32>, c: Carrier)
    requires
        forall|a: u32| xs.contains(a) <==> ys.contains(a),
    ensures
        best_backbone(xs, Some(c)) == best_backbone(ys, Some(c)),
{
    lemma_best_backbone_is_max(xs, Some(c));
    lemma_best_backbone_is_max(ys, Some(c));
    match (best_backbone(xs, Some(c)), best_backbone(ys, Some(c))) {
        (Some((l1, p1)), Some((l2, p2))) => {
            let i = choose|i: int| 0 <= i < xs.len() && counts(#[trigger] xs[i], Some(c))
                && line_type_of(xs[i]) == l1 && prio_of(xs[i]) == p1;
            let j = choose|j: int| 0 <= j < ys.len() && counts(#[trigger] ys[j], Some(c))
                && line_type_of(ys[j]) == l2 && prio_of(ys[j]) == p2;
            assert(xs.contains(xs[i]));
            assert(ys.contains(xs[i]));
            let i2 = choose|k: int| 0 <= k < ys.len() && ys[k] == xs[i];
            assert(counts(ys[i2], Some(c)));
            assert(ys.contains(ys[j]));
            assert(xs.contains(ys[j]));
            let j2 = choose|k: int| 0 <= k < xs.len() && xs[k] == ys[j];
            assert(counts(xs[j2], Some(c)));
            assert(p1 == p2);
            lemma_line_unique_per_prio(xs[i], ys[j], c);
        },
        (Some((l1, p1)), None) => {
            let i = choose|i: int| 0 <= i < xs.len() && counts(#[trigger] xs[i], Some(c))
                && line_type_of(xs[i]) == l1 && prio_of(xs[i]) == p1;
            assert(xs.contains(xs[i]));
            assert(ys.contains(xs[i]));
            let k = choose|k: int| 0 <= k < ys.len() && ys[k] == xs[i];
            assert(counts(ys[k], Some(c)));
        },
        (None, Some((l2, p2))) => {
            let j = choose|j: int| 0 <= j < ys.len() && counts(#[trigger] ys[j], Some(c))
                && line_type_of(ys[j]) == l2 && prio_of(ys[j]) == p2;
            assert(ys.contains(ys[j]));
            assert(xs.contains(ys[j]));
            let k = choose|k: int| 0 <= k < xs.len() && xs[k] == ys[j];
            assert(counts(xs[k], Some(c)));
        },
        (None, None) => {},
    }
}

/// More hops never lower the line: appending ASNs to a path keeps or raises
/// the priority of the classification (for a carrier or for the entry line).
pub proof fn lemma_line_never_drops(xs: Seq<u32>, ys: Seq<u32>, only: Option<Carrier>)
    ensures
        best_prio(best_backbone(xs + ys, only)) >= best_prio(best_backbone(xs, only)),
{
    lemma_best_backbone_is_max(xs, only);
    lemma_best_backbone_is_max(xs + ys, only);
    if let Some((l1, p1)) = best_backbone(xs, only) {
        let i = choose|i: int| 0 <= i < xs.len() && counts(#[trigger] xs[i], only)
            && line_type_of(xs[i]) == l1 && prio_of(xs[i]) == p1;
        assert((xs + ys)[i] == xs[i]);
        assert(counts((xs + ys)[i], only));
    }
}

// ───────────────────────── ICMP packets ─────────────────────────

/// Sum of the big-endian 16-bit words of `d` (an odd last byte is the high half).
pub open spec fn word_sum(d: Seq<u8>) -> nat
    decreases d.len(),
{
    if d.len() == 0 {
        0
    } else if d.len() == 1 {
        d[0] as nat * 256
    } else {
        d[0] as nat * 256 + d[1] as nat + word_sum(d.skip(2))
    }
}

/// End-around-carry folding of a sum into 16 bits.
pub open spec fn fold16(s: nat) -> nat
    decreases s,
{
    if s < 65536 {
        s
    } else {
        fold16(s % 65536 + s / 65536)
    }
}

/// RFC 1071 Internet checksum: the one's complement of the folded word sum.
pub open spec fn checksum_spec(d: Seq<u8>) -> u16 {
    (65535 - fold16(word_sum(d))) as u16
}

proof fn lemma_fold16(s: nat)
    ensures
        fold16(s) <= 65535,
        fold16(s) % 65535 == s % 65535,
        fold16(s) == 0 <==> s == 0,
    decreases s,
{
    if s >= 65536 {
        let q = s / 65536;
        let r = s % 65536;
        assert(s == 65535 * q + (q + r));
        vstd::arithmetic::div_mod::lemma_mod_multiples_vanish(q as int, (q + r) as int, 65535);
        lemma_fold16(q + r);
    }
}

proof fn lemma_fold16_upper(s: nat)
    ensures
        fold16(s) <= 65535,
{
    lemma_fold16(s);
}

proof fn lemma_word_sum_step(d: Seq<u8>, i: int)
    requires
        0 <= i,
        i + 2 <= d.len(),
    ensures
        word_sum(d.skip(i)) == d[i] as nat * 256 + d[i + 1] as nat + word_sum(d.skip(i + 2)),
{
    assert(d.skip(i).skip(2) =~= d.skip(i + 2));
}

/// Internet checksum of `data` (RFC 1071).
pub fn internet_checksum(data: &[u8]) -> (c: u16)
    requires
        word_sum(data@) <= u32::MAX,
    ensures
        c == checksum_spec(data@),
{
    let mut sum: u32 = 0;
    let mut i: usize = 0;
    let n = data.len();
    assert(data@.skip(0) =~= data@);
    while n - i >= 2
        invariant
            n == data@.len(),
            i <= n,
            sum as nat + word_sum(data@.skip(i as int)) == word_sum(data@),
            word_sum(data@) <= u32::MAX,
        decreases n - i,
    {
        proof { lemma_word_sum_step(data@, i as int); }
        sum = sum + (data[i] as u32) * 256 + (data[i + 1] as u32);
        i += 2;
    }
    if i < n {
        assert(data@.skip(i as int).len() == 1);
        sum = sum + (data[i] as u32) * 256;
    } else {
        assert(data@.skip(i as int).len() == 0);
    }
    assert(sum as nat == word_sum(data@));
    let ghost total = sum as nat;
    while sum >= 65536
        invariant
            fold16(sum as nat) == fold16(total),
        decreases sum,
    {
        sum = sum % 65536 + sum / 65536;
    }
    proof { lemma_fold16_upper(total); }
    (65535 - sum) as u16
}

/// High and low byte of a 16-bit value (big-endian order).
pub open spec fn hi(x: u16) -> u8 {
    (x / 256) as u8
}

pub open spec fn lo(x: u16) -> u8 {
    (x % 256) as u8
}

/// An ICMP echo request: type 8, code 0, checksum field `csum`, identifier,
/// sequence number, then `n` payload bytes counting 0, 1, 2, ... modulo 256.
pub open spec fn echo_bytes(id: u16, seq: u16, n: nat, csum: u16) -> Seq<u8> {
    seq![8u8, 0u8, hi(csum), lo(csum), hi(id), lo(id), hi(seq), lo(seq)]
        + Seq::new(n, |i: int| (i % 256) as u8)
}

/// The echo request that `build_echo_request` sends: its checksum field holds
/// the checksum of the same packet with a zero field.
pub open spec fn echo_packet(id: u16, seq: u16, n: nat) -> Seq<u8> {
    echo_bytes(id, seq, n, checksum_spec(echo_bytes(id, seq, n, 0)))
}

proof fn lemma_hi_lo(x: u16)
    ensures
        hi(x) as nat * 256 + lo(x) as nat == x as nat,
{
}

proof fn lemma_echo_sum(id: u16, seq: u16, n: nat, c: u16)
    ensures
        word_sum(echo_bytes(id, seq, n, c)) == word_sum(echo_bytes(id, seq, n, 0)) + c as nat,
{
    let d1 = echo_bytes(id, seq, n, c);
    let d0 = echo_bytes(id, seq, n, 0);
    lemma_word_sum_step(d1, 0);
    lemma_word_sum_step(d1, 2);
    lemma_word_sum_step(d0, 0);
    lemma_word_sum_step(d0, 2);
    assert(d1.skip(0) =~= d1);
    assert(d0.skip(0) =~= d0);
    assert(d1.skip(4) =~= d0.skip(4));
    lemma_hi_lo(c);
}

/// A packet built with its own checksum sums to zero: its checksum is 0.
pub proof fn lemma_echo_checksum_zero(id: u16, seq: u16, n: nat)
    ensures
        checksum_spec(echo_packet(id, seq, n)) == 0,
{
    let s0 = word_sum(echo_bytes(id, seq, n, 0));
    lemma_fold16(s0);
    let f = fold16(s0);
    let c = checksum_spec(echo_bytes(id, seq, n, 0));
    assert(c as nat == 65535 - f);
    lemma_echo_sum(id, seq, n, c);
    let s1 = s0 + c as nat;
    lemma_fold16(s1);
    assert(s1 > 0);
    vstd::arithmetic::div_mod::lemma_add_mod_noop(s0 as int, c as int, 65535);
    vstd::arithmetic::div_mod::lemma_add_mod_noop(f as int, c as int, 65535);
    assert((f + c as nat) % 65535 == 0);
    assert(fold16(s1) % 65535 == 0);
    assert(fold16(s1) == 65535);
}

/// Builds an ICMP echo request of `8 + payload_len` bytes with its checksum set.
pub fn build_echo_request(id: u16, seq: u16, payload_len: usize) -> (pkt: Vec<u8>)
    requires
        payload_len <= 131062,
    ensures
        pkt@ == echo_packet(id, seq, payload_len as nat),
        pkt@.len() == 8 + payload_len,
{
    let total = 8 + payload_len;
    let mut pkt: Vec<u8> = vec![0u8; total];
    pkt.set(0, 8);
    pkt.set(1, 0);
    pkt.set(4, (id / 256) as u8);
    pkt.set(5, (id % 256) as u8);
    pkt.set(6, (seq / 256) as u8);
    pkt.set(7, (seq % 256) as u8);
    let mut i: usize = 0;
    while i < payload_len
        invariant
            pkt@.len() == total == 8 + payload_len,
            i <= payload_len,
            pkt@.take(8) == seq![8u8, 0u8, 0u8, 0u8, hi(id), lo(id), hi(seq), lo(seq)],
            forall|k: int| 0 <= k < i ==> #[trigger] pkt@[8 + k] == (k % 256) as u8,
        decreases payload_len - i,
    {
        pkt.set(8 + i, (i % 256) as u8);
        assert(pkt@.take(8) =~= seq![8u8, 0u8, 0u8, 0u8, hi(id), lo(id), hi(seq), lo(seq)]);
        i += 1;
    }
    proof {
        let e = echo_bytes(id, seq, payload_len as nat, 0);
        assert(e.len() == pkt@.len());
        assert forall|k: int| 0 <= k < pkt@.len() implies pkt@[k] == e[k] by {
            if k < 8 {
                assert(pkt@[k] == pkt@.take(8)[k]);
            } else {
                assert(pkt@[8 + (k - 8)] == ((k - 8) % 256) as u8);
            }
        }
        assert(pkt@ =~= e);
    }
    proof {
        assert(word_sum(echo_bytes(id, seq, payload_len as nat, 0)) <= u32::MAX) by {
            lemma_word_sum_bound(echo_bytes(id, seq, payload_len as nat, 0));
        }
    }
    let c = internet_checksum(pkt.as_slice());
    pkt.set(2, (c / 256) as u8);
    pkt.set(3, (c % 256) as u8);
    assert(pkt@ =~= echo_packet(id, seq, payload_len as nat));
    pkt
}

proof fn lemma_word_sum_bound(d: Seq<u8>)
    ensures
        word_sum(d) <= 65535 * ((d.len() + 1) / 2),
    decreases d.len(),
{
    if d.len() >= 2 {
        lemma_word_sum_bound(d.skip(2));
        assert(d[0] as nat * 256 + d[1] as nat <= 65535);
    }
}

/// Kind of a received ICMP message.
#[derive(Debug, Clone, Copy, PartialEq, Eq, Structural)]
pub enum IcmpKind {
    /// The target answered.
    EchoReply,
    /// A router on the way (TTL exhausted).
    TimeExceeded,
    /// Target unreachable (also counts as arrived).
    DestUnreachable,
    Other,
}

#[derive(Debug, Clone, Copy, PartialEq, Eq, Structural)]
pub struct IcmpInfo {
    pub kind: IcmpKind,
    pub seq: u16,
}

/// `b` without a leading IPv4 header (version 4 and a header length of at
/// least 20 bytes that fits); otherwise `b` itself.
pub open spec fn strip_spec(b: Seq<u8>) -> Seq<u8> {
    if b.len() > 0 && b[0] / 16 == 4 && (b[0] % 16) as nat * 4 >= 20 && b.len() >= (b[0] % 16) as nat * 4 {
        b.skip((b[0] % 16) as int * 4)
    } else {
        b
    }
}

pub fn strip_ip_header(buf: &[u8]) -> (r: &[u8])
    ensures
        r@ == strip_spec(buf@),
{
    if buf.len() > 0 && buf[0] / 16 == 4 {
        let ihl = ((buf[0] % 16) as usize) * 4;
        if ihl >= 20 && buf.len() >= ihl {
            let r = &buf[ihl..buf.len()];
            assert(r@ =~= buf@.skip(ihl as int));
            return r;
        }
    }
    buf
}

pub open spec fn be16(x: u8, y: u8) -> u16 {
    (x as nat * 256 + y as nat) as u16
}

/// Big-endian 16-bit value of two bytes.
pub fn be16_of(x: u8, y: u8) -> (r: u16)
    ensures
        r == be16(x, y),
{
    (x as u16) * 256 + (y as u16)
}

/// What a received message tells: its kind and the sequence number of the
/// probe it answers (from the quoted request for errors).
pub open spec fn message_spec(buf: Seq<u8>) -> Option<IcmpInfo> {
    let m = strip_spec(buf);
    if m.len() < 8 {
        None
    } else if m[0] == 0 {
        Some(IcmpInfo { kind: IcmpKind::EchoReply, seq: be16(m[6], m[7]) })
    } else if m[0] == 11 || m[0] == 3 {
        let inner = strip_spec(m.skip(8));
        if inner.len() < 8 || inner[0] != 8 {
            None
        } else {
            Some(IcmpInfo {
                kind: if m[0] == 11 { IcmpKind::TimeExceeded } else { IcmpKind::DestUnreachable },
                seq: be16(inner[6], inner[7]),
            })
        }
    } else {
        Some(IcmpInfo { kind: IcmpKind::Other, seq: 0 })
    }
}

/// Parses a received ICMP message (with or without an outer IPv4 header).
pub fn parse_icmp(buf: &[u8]) -> (r: Option<IcmpInfo>)
    ensures
        r == message_spec(buf@),
{
    let msg = strip_ip_header(buf);
    if msg.len() < 8 {
        return None;
    }
    if msg[0] == 0 {
        return Some(IcmpInfo { kind: IcmpKind::EchoReply, seq: be16_of(msg[6], msg[7]) });
    }
    if msg[0] == 11 || msg[0] == 3 {
        let rest = &msg[8..msg.len()];
        assert(rest@ =~= msg@.skip(8));
        let inner = strip_ip_header(rest);
        if inner.len() < 8 || inner[0] != 8 {
            return None;
        }
        let kind = if msg[0] == 11 { IcmpKind::TimeExceeded } else { IcmpKind::DestUnreachable };
        return Some(IcmpInfo { kind, seq: be16_of(inner[6], inner[7]) });
    }
    Some(IcmpInfo { kind: IcmpKind::Other, seq: 0 })
}

/// Routable public IPv4: not private, loopback, link-local, unspecified,
/// broadcast, documentation, 0/8, CGNAT 100.64/10 or benchmarking 198.18/15.
pub open spec fn public_spec(ip: Ipv4Addr) -> bool {
    !(ip.private() || ip.loopback() || ip.link_local() || ip.unspecified() || ip.broadcast()
        || ip.documentation() || ip.a == 0 || (ip.a == 100 && 64 <= ip.b < 128)
        || (ip.a == 198 && (ip.b == 18 || ip.b == 19)))
}

pub fn is_public_v4(ip: Ipv4Addr) -> (r: bool)
    ensures
        r == public_spec(ip),
{
    let o = ip.octets();
    let private = o[0] == 10 || (o[0] == 172 && 16 <= o[1] && o[1] < 32) || (o[0] == 192 && o[1] == 168);
    let loopback = o[0] == 127;
    let link_local = o[0] == 169 && o[1] == 254;
    let unspecified = o[0] == 0 && o[1] == 0 && o[2] == 0 && o[3] == 0;
    let broadcast = o[0] == 255 && o[1] == 255 && o[2] == 255 && o[3] == 255;
    let documentation = (o[0] == 192 && o[1] == 0 && o[2] == 2) || (o[0] == 198 && o[1] == 51 && o[2] == 100)
        || (o[0] == 203 && o[1] == 0 && o[2] == 113);
    !(private || loopback || link_local || unspecified || broadcast || documentation || o[0] == 0
        || (o[0] == 100 && 64 <= o[1] && o[1] < 128) || (o[0] == 198 && (o[1] == 18 || o[1] == 19)))
}

// ───────────────────────── traces ─────────────────────────

/// One hop of a trace. `rtt_us` is the round-trip time in microseconds.
#[derive(Debug, Clone)]
pub struct Hop {
    pub ttl: u8,
    /// `None`: no answer at this TTL.
    pub addr: Option<Ipv4Addr>,
    pub rtt_us: Option<u64>,
    pub asn: Option<u32>,
    pub as_org: Option<String>,
    pub country: Option<String>,
    pub city: Option<String>,
}

#[derive(Debug, Clone)]
pub struct RouteResult {
    pub carrier: Carrier,
    pub city: City,
    pub target_name: String,
    pub target: Ipv4Addr,
    pub hops: Vec<Hop>,
    /// The carrier's own return backbone.
    pub line: LineType,
    /// Quality grade of `line`.
    pub grade: Grade,
    /// Highest-priority backbone of any carrier on the path.
    pub entry: LineType,
    /// Why the trace could not run; the hops are then empty.
    pub degraded: Option<String>,
}

pub open spec fn answered(ttl: u8, addr: Ipv4Addr, rtt_us: Option<u64>) -> Hop {
    Hop { ttl, addr: Some(addr), rtt_us, asn: None, as_org: None, country: None, city: None }
}

pub open spec fn silent(ttl: u8) -> Hop {
    Hop { ttl, addr: None, rtt_us: None, asn: None, as_org: None, country: None, city: None }
}

pub fn mk_hop(ttl: u8, addr: Ipv4Addr, rtt_us: Option<u64>) -> (h: Hop)
    ensures
        h == answered(ttl, addr, rtt_us),
{
    Hop { ttl, addr: Some(addr), rtt_us, asn: None, as_org: None, country: None, city: None }
}

pub fn empty_hop(ttl: u8) -> (h: Hop)
    ensures
        h == silent(ttl),
{
    Hop { ttl, addr: None, rtt_us: None, asn: None, as_org: None, country: None, city: None }
}

/// Bookkeeping of one traceroute: probes carry sequence numbers
/// `seq_base + ttl` for `ttl` in `1..=max_hops`; the first answer per TTL is kept.
pub struct TraceState {
    pub seq_base: u16,
    pub max_hops: u8,
    /// `slots[t - 1]` is the hop recorded for TTL `t`.
    pub slots: Vec<Option<Hop>>,
    /// Smallest TTL at which the target (or an unreachable report) answered.
    pub dest_ttl: Option<u8>,
}

/// Lowest index of an answered hop after which no hop answered: the length a
/// finished trace is cut to.
pub open spec fn answered_len(hs: Seq<Hop>) -> nat
    decreases hs.len(),
{
    if hs.len() == 0 {
        0
    } else if hs.last().addr is Some {
        hs.len()
    } else {
        answered_len(hs.drop_last())
    }
}

impl TraceState {
    pub open spec fn wf(self) -> bool {
        &&& self.slots@.len() == self.max_hops
        &&& self.seq_base as nat + self.max_hops as nat <= u16::MAX
        &&& forall|i: int| 0 <= i < self.slots@.len() ==> ((#[trigger] self.slots@[i]) matches Some(h)
            ==> h.ttl == i + 1 && h.addr is Some)
        &&& self.dest_ttl matches Some(d) ==> 1 <= d <= self.max_hops
    }

    /// The TTL a sequence number answers for, when it belongs to this trace.
    pub open spec fn ttl_of(self, seq: u16) -> Option<u8> {
        if seq <= self.seq_base || seq > self.seq_base + self.max_hops {
            None
        } else {
            Some((seq - self.seq_base) as u8)
        }
    }

    /// The target answered and every TTL up to it has a hop.
    pub open spec fn complete(self) -> bool {
        self.dest_ttl matches Some(d) && forall|t: int| 1 <= t <= d ==> (#[trigger] self.slots@[t - 1]) is Some
    }

    /// The hops of the finished trace: every TTL up to the target's (or up to
    /// the maximum), silent where nothing answered, cut after the last answer.
    pub open spec fn finished(self) -> Seq<Hop> {
        let top = match self.dest_ttl { Some(d) => d as nat, None => self.max_hops as nat };
        let all = Seq::new(top, |i: int| match self.slots@[i] { Some(h) => h, None => silent((i + 1) as u8) });
        all.take(answered_len(all) as int)
    }

    pub fn new(seq_base: u16, max_hops: u8) -> (st: TraceState)
        requires
            seq_base as nat + max_hops as nat <= u16::MAX,
        ensures
            st.wf(),
            st.seq_base == seq_base,
            st.max_hops == max_hops,
            st.dest_ttl is None,
            forall|i: int| 0 <= i < max_hops ==> (#[trigger] st.slots@[i]) is None,
    {
        let mut slots: Vec<Option<Hop>> = Vec::new();
        let mut i: u8 = 0;
        while i < max_hops
            invariant
                i <= max_hops,
                slots@.len() == i,
                forall|k: int| 0 <= k < i ==> (#[trigger] slots@[k]) is None,
            decreases max_hops - i,
        {
            slots.push(None);
            i += 1;
        }
        TraceState { seq_base, max_hops, slots, dest_ttl: None }
    }

    pub fn ttl_for(&self, seq: u16) -> (r: Option<u8>)
        requires
            self.wf(),
        ensures
            r == self.ttl_of(seq),
    {
        if seq <= self.seq_base || seq > self.seq_base + self.max_hops as u16 {
            None
        } else {
            Some((seq - self.seq_base) as u8)
        }
    }

    /// Records a received message from `from`; returns whether the trace is complete.
    /// Messages outside this trace's sequence range, and kinds other than echo
    /// reply, time exceeded and unreachable, change nothing; an already
    /// answered TTL keeps its first hop.
    pub fn record(&mut self, kind: IcmpKind, seq: u16, from: Ipv4Addr, rtt_us: Option<u64>) -> (done: bool)
        requires
            old(self).wf(),
        ensures
            final(self).wf(),
            final(self).seq_base == old(self).seq_base,
            final(self).max_hops == old(self).max_hops,
            done == final(self).complete(),
            match old(self).ttl_of(seq) {
                Some(t) => if kind == IcmpKind::Other {
                    final(self).slots@ == old(self).slots@ && final(self).dest_ttl == old(self).dest_ttl
                } else {
                    &&& final(self).slots@ == old(self).slots@.update(t - 1, Some(match old(self).slots@[t - 1] {
                        Some(h) => h,
                        None => answered(t, from, rtt_us),
                    }))
                    &&& final(self).dest_ttl == (if kind == IcmpKind::TimeExceeded {
                        old(self).dest_ttl
                    } else {
                        match old(self).dest_ttl {
                            Some(d) => Some(if t < d { t } else { d }),
                            None => Some(t),
                        }
                    })
                },
                None => final(self).slots@ == old(self).slots@ && final(self).dest_ttl == old(self).dest_ttl,
            },
    {
        match self.ttl_for(seq) {
            Some(t) => {
                if kind != IcmpKind::Other {
                    let idx = slot_index(t);
                    if self.slots[idx].is_none() {
                        self.slots.set(idx, Some(mk_hop(t, from, rtt_us)));
                    }
                    if kind != IcmpKind::TimeExceeded {
                        self.dest_ttl = match self.dest_ttl {
                            Some(d) => Some(if t < d { t } else { d }),
                            None => Some(t),
                        };
                    }
                }
            }
            None => {}
        }
        self.is_complete()
    }

    pub fn is_complete(&self) -> (r: bool)
        requires
            self.wf(),
        ensures
            r == self.complete(),
    {
        match self.dest_ttl {
            None => false,
            Some(d) => {
                let mut t: u16 = 1;
                while t <= d as u16
                    invariant
                        self.wf(),
                        self.dest_ttl == Some(d),
                        1 <= t <= d + 1,
                        forall|k: int| 1 <= k < t ==> (#[trigger] self.slots@[k - 1]) is Some,
                    decreases d + 1 - t,
                {
                    if self.slots[(t - 1) as usize].is_none() {
                        return false;
                    }
                    t += 1;
                }
                true
            }
        }
    }

    /// The hops of the finished trace (see `finished`).
    pub fn finish(&self) -> (hops: Vec<Hop>)
        requires
            self.wf(),
        ensures
            hops@ == self.finished(),
    {
        let top: u8 = match self.dest_ttl {
            Some(d) => d,
            None => self.max_hops,
        };
        let ghost all = Seq::new(top as nat, |i: int| match self.slots@[i] { Some(h) => h, None => silent((i + 1) as u8) });
        let mut out: Vec<Hop> = Vec::new();
        let mut i: u8 = 0;
        while i < top
            invariant
                self.wf(),
                top <= self.max_hops,
                all == Seq::new(top as nat, |i: int| match self.slots@[i] { Some(h) => h, None => silent((i + 1) as u8) }),
                i <= top,
                out@ == all.take(i as int),
            decreases top - i,
        {
            let h = match &self.slots[i as usize] {
                Some(h) => copy_hop(h),
                None => empty_hop(i + 1),
            };
            out.push(h);
            i += 1;
            assert(out@ =~= all.take(i as int));
        }
        assert(all.take(top as int) =~= all);
        let keep = answered_prefix(&out);
        out.truncate(keep);
        assert(out@ =~= all.take(answered_len(all) as int));
        out
    }
}

/// Position of TTL `t` among the slots.
fn slot_index(t: u8) -> (i: usize)
    requires
        t >= 1,
    ensures
        i == t - 1,
{
    (t - 1) as usize
}

/// A field-by-field copy of a hop.
pub fn copy_hop(h: &Hop) -> (r: Hop)
    ensures
        r == *h,
{
    Hop {
        ttl: h.ttl,
        addr: h.addr,
        rtt_us: h.rtt_us,
        asn: h.asn,
        as_org: crate::probe::copy_opt(&h.as_org),
        country: crate::probe::copy_opt(&h.country),
        city: crate::probe::copy_opt(&h.city),
    }
}

proof fn lemma_answered_len(hs: Seq<Hop>, k: int)
    requires
        0 <= k <= hs.len(),
        k == 0 || hs[k - 1].addr is Some,
        forall|j: int| k <= j < hs.len() ==> (#[trigger] hs[j]).addr is None,
    ensures
        answered_len(hs) == k,
    decreases hs.len(),
{
    if hs.len() > k {
        assert(hs.last().addr is None);
        assert forall|j: int| k <= j < hs.drop_last().len() implies (#[trigger] hs.drop_last()[j]).addr is None by {
            assert(hs.drop_last()[j] == hs[j]);
        }
        if k > 0 {
            assert(hs.drop_last()[k - 1] == hs[k - 1]);
        }
        lemma_answered_len(hs.drop_last(), k);
    }
}

fn answered_prefix(hs: &Vec<Hop>) -> (k: usize)
    ensures
        k == answered_len(hs@),
        k <= hs@.len(),
{
    let mut k = hs.len();
    while k > 0 && hs[k - 1].addr.is_none()
        invariant
            k <= hs@.len(),
            forall|j: int| k <= j < hs@.len() ==> (#[trigger] hs@[j]).addr is None,
        decreases k,
    {
        k -= 1;
    }
    proof { lemma_answered_len(hs@, k as int); }
    k
}

/// A finished trace lists TTLs 1, 2, 3, ... in order, and its last hop answered.
pub proof fn lemma_finished_shape(st: TraceState)
    requires
        st.wf(),
    ensures
        forall|i: int| 0 <= i < st.finished().len() ==> (#[trigger] st.finished()[i]).ttl == i + 1,
        st.finished().len() > 0 ==> st.finished().last().addr is Some,
{
    let top = match st.dest_ttl { Some(d) => d as nat, None => st.max_hops as nat };
    let all = Seq::new(top, |i: int| match st.slots@[i] { Some(h) => h, None => silent((i + 1) as u8) });
    lemma_answered_len_bounds(all);
    assert forall|i: int| 0 <= i < st.finished().len() implies (#[trigger] st.finished()[i]).ttl == i + 1 by {
        assert(st.finished()[i] == all[i]);
    }
}

proof fn lemma_answered_len_bounds(hs: Seq<Hop>)
    ensures
        answered_len(hs) <= hs.len(),
        answered_len(hs) > 0 ==> hs[answered_len(hs) - 1].addr is Some,
    decreases hs.len(),
{
    if hs.len() > 0 && hs.last().addr is None {
        lemma_answered_len_bounds(hs.drop_last());
        if answered_len(hs) > 0 {
            assert(hs.drop_last()[answered_len(hs) - 1] == hs[answered_len(hs) - 1]);
        }
    }
}

// ───────────────────────── hop annotation ─────────────────────────

/// What the geo service says of one address.
#[derive(Debug, Clone)]
pub struct Geo {
    pub ip: Ipv4Addr,
    pub asn: Option<u32>,
    pub as_org: Option<String>,
    pub country: Option<String>,
    pub city: Option<String>,
}

/// Index of the first entry about `ip`.
pub open spec fn geo_index(geo: Seq<Geo>, ip: Ipv4Addr) -> Option<int>
    decreases geo.len(),
{
    if geo.len() == 0 {
        None
    } else {
        match geo_index(geo.drop_last(), ip) {
            Some(i) => Some(i),
            None => if geo.last().ip == ip { Some(geo.len() - 1) } else { None },
        }
    }
}

/// The AS a hop is attributed to: the geo service's, else the prefix fallback.
pub open spec fn hop_asn(addr: Ipv4Addr, geo: Seq<Geo>) -> Option<u32> {
    match geo_index(geo, addr) {
        Some(i) => match geo[i].asn {
            Some(n) => Some(n),
            None => prefix_asn(addr),
        },
        None => prefix_asn(addr),
    }
}

/// A hop with the geo details of its address filled in.
pub open spec fn annotated(h: Hop, geo: Seq<Geo>) -> Hop {
    match h.addr {
        Some(a) => match geo_index(geo, a) {
            Some(i) => Hop { asn: hop_asn(a, geo), as_org: geo[i].as_org, country: geo[i].country, city: geo[i].city, ..h },
            None => Hop { asn: hop_asn(a, geo), ..h },
        },
        None => h,
    }
}

/// The AS numbers along a path, in hop order.
pub open spec fn path_asns(hops: Seq<Hop>, geo: Seq<Geo>) -> Seq<u32>
    decreases hops.len(),
{
    if hops.len() == 0 {
        Seq::empty()
    } else {
        let rest = path_asns(hops.drop_last(), geo);
        match hops.last().addr {
            Some(a) => match hop_asn(a, geo) {
                Some(n) => rest.push(n),
                None => rest,
            },
            None => rest,
        }
    }
}

/// The answering addresses along a path, in hop order.
pub open spec fn path_addrs(hops: Seq<Hop>) -> Seq<Ipv4Addr>
    decreases hops.len(),
{
    if hops.len() == 0 {
        Seq::empty()
    } else {
        let rest = path_addrs(hops.drop_last());
        match hops.last().addr {
            Some(a) => rest.push(a),
            None => rest,
        }
    }
}

/// The route after annotation: hops annotated; the carrier's line (CN2
/// refined), its grade and the entry line read from the path's AS numbers.
/// A degraded route is left as it is.
pub open spec fn annotated_route(r: RouteResult, geo: Seq<Geo>) -> (Seq<Hop>, LineType, Grade, LineType) {
    if r.degraded is Some {
        (r.hops@, r.line, r.grade, r.entry)
    } else {
        let asns = path_asns(r.hops@, geo);
        let line = refine_spec(line_of(best_backbone(asns, Some(r.carrier))), path_addrs(r.hops@));
        (r.hops@.map_values(|h: Hop| annotated(h, geo)), line, line.grade_of(), line_of(best_backbone(asns, None)))
    }
}

fn find_geo(geo: &[Geo], ip: Ipv4Addr) -> (r: Option<usize>)
    ensures
        match r {
            Some(i) => geo_index(geo@, ip) == Some(i as int) && i < geo@.len(),
            None => geo_index(geo@, ip) is None,
        },
{
    let mut i: usize = 0;
    while i < geo.len()
        invariant
            i <= geo@.len(),
            geo_index(geo@.take(i as int), ip) is None,
        decreases geo.len() - i,
    {
        assert(geo@.take(i + 1).drop_last() =~= geo@.take(i as int));
        if geo[i].ip == ip {
            proof { lemma_geo_index_prefix(geo@, ip, i as int + 1); }
            return Some(i);
        }
        i += 1;
    }
    assert(geo@.take(geo@.len() as int) =~= geo@);
    None
}

proof fn lemma_geo_index_prefix(geo: Seq<Geo>, ip: Ipv4Addr, k: int)
    requires
        0 < k <= geo.len(),
        geo_index(geo.take(k), ip) is Some,
    ensures
        geo_index(geo, ip) == geo_index(geo.take(k), ip),
    decreases geo.len() - k,
{
    if k < geo.len() {
        assert(geo.take(k + 1).drop_last() =~= geo.take(k));
        lemma_geo_index_prefix(geo, ip, k + 1);
    } else {
        assert(geo.take(k) =~= geo);
    }
}

/// Fills in the hops' geo details and classifies the route's lines.
pub fn annotate_route(r: &mut RouteResult, geo: &[Geo])
    ensures
        final(r).carrier == old(r).carrier,
        final(r).city == old(r).city,
        final(r).target_name == old(r).target_name,
        final(r).target == old(r).target,
        final(r).degraded == old(r).degraded,
        (final(r).hops@, final(r).line, final(r).grade, final(r).entry) == annotated_route(*old(r), geo@),
{
    if r.degraded.is_some() {
        return;
    }
    let ghost orig = r.hops@;
    let ghost before = *r;
    let mut asns: Vec<u32> = Vec::new();
    let mut addrs: Vec<Ipv4Addr> = Vec::new();
    let n = r.hops.len();
    let mut i: usize = 0;
    while i < n
        invariant
            n == r.hops@.len() == orig.len(),
            i <= n,
            forall|k: int| 0 <= k < i ==> #[trigger] r.hops@[k] == annotated(orig[k], geo@),
            forall|k: int| i <= k < n ==> #[trigger] r.hops@[k] == orig[k],
            asns@ == path_asns(orig.take(i as int), geo@),
            addrs@ == path_addrs(orig.take(i as int)),
            r.carrier == before.carrier,
            r.city == before.city,
            r.target_name == before.target_name,
            r.target == before.target,
            r.degraded == before.degraded,
            before == *old(r),
        decreases n - i,
    {
        assert(orig.take(i + 1).drop_last() =~= orig.take(i as int));
        let h = copy_hop(&r.hops[i]);
        match h.addr {
            Some(a) => {
                let found = find_geo(geo, a);
                let asn = match found {
                    Some(g) => match geo[g].asn {
                        Some(x) => Some(x),
                        None => asn_from_prefix(a),
                    },
                    None => asn_from_prefix(a),
                };
                let nh = match found {
                    Some(g) => Hop {
                        asn,
                        as_org: crate::probe::copy_opt(&geo[g].as_org),
                        country: crate::probe::copy_opt(&geo[g].country),
                        city: crate::probe::copy_opt(&geo[g].city),
                        ..h
                    },
                    None => Hop { asn, ..h },
                };
                match asn {
                    Some(x) => asns.push(x),
                    None => {}
                }
                addrs.push(a);
                r.hops.set(i, nh);
            }
            None => {}
        }
        i += 1;
    }
    assert(orig.take(n as int) =~= orig);
    assert(r.hops@ =~= orig.map_values(|h: Hop| annotated(h, geo@)));
    let line0 = classify_line(r.carrier, asns.as_slice());
    let line = refine_cn2(line0, addrs.as_slice());
    r.line = line;
    r.grade = line.grade();
    r.entry = classify_entry(asns.as_slice());
}

/// Routes in display order: Telecom, then Unicom, then Mobile, keeping the
/// order within each carrier.
pub open spec fn carrier_order(rs: Seq<RouteResult>) -> Seq<RouteResult> {
    rs.filter(|r: RouteResult| r.carrier == Carrier::Telecom)
        + rs.filter(|r: RouteResult| r.carrier == Carrier::Unicom)
        + rs.filter(|r: RouteResult| r.carrier == Carrier::Mobile)
}

/// The display order only rearranges: it holds every route exactly as often
/// as the routes given.
pub proof fn lemma_carrier_order_rearranges(rs: Seq<RouteResult>)
    ensures
        carrier_order(rs).to_multiset() == rs.to_multiset(),
        carrier_order(rs).len() == rs.len(),
    decreases rs.len(),
{
    broadcast use vstd::seq_lib::group_to_multiset_ensures, vstd::seq_lib::lemma_multiset_commutative,
        vstd::multiset::group_multiset_axioms;
    let ft = |r: RouteResult| r.carrier == Carrier::Telecom;
    let fu = |r: RouteResult| r.carrier == Carrier::Unicom;
    let fm = |r: RouteResult| r.carrier == Carrier::Mobile;
    if rs.len() == 0 {
        reveal(Seq::filter);
        assert(carrier_order(rs) =~= rs);
    } else {
        let p = rs.drop_last();
        let x = rs.last();
        lemma_carrier_order_rearranges(p);
        reveal(Seq::filter);
        assert(rs.drop_last() == p);
        let (t, u, m) = (p.filter(ft), p.filter(fu), p.filter(fm));
        assert(carrier_order(p) == t + u + m);
        assert((t + u + m).to_multiset() =~= t.to_multiset().add(u.to_multiset()).add(m.to_multiset()));
        match x.carrier {
            Carrier::Telecom => {
                assert(rs.filter(ft) == t.push(x));
                assert(rs.filter(fu) == u);
                assert(rs.filter(fm) == m);
                assert((t.push(x) + u + m).to_multiset()
                    =~= t.push(x).to_multiset().add(u.to_multiset()).add(m.to_multiset()));
            },
            Carrier::Unicom => {
                assert(rs.filter(ft) == t);
                assert(rs.filter(fu) == u.push(x));
                assert(rs.filter(fm) == m);
                assert((t + u.push(x) + m).to_multiset()
                    =~= t.to_multiset().add(u.push(x).to_multiset()).add(m.to_multiset()));
            },
            Carrier::Mobile => {
                assert(rs.filter(ft) == t);
                assert(rs.filter(fu) == u);
                assert(rs.filter(fm) == m.push(x));
                assert((t + u + m.push(x)).to_multiset()
                    =~= t.to_multiset().add(u.to_multiset()).add(m.push(x).to_multiset()));
            },
        }
        assert(rs == p.push(x));
        assert(carrier_order(rs).to_multiset() =~= rs.to_multiset());
    }
}

/// Stable reordering into Telecom, Unicom, Mobile.
pub fn order_by_carrier(rs: Vec<RouteResult>) -> (out: Vec<RouteResult>)
    ensures
        out@ == carrier_order(rs@),
{
    let ghost orig = rs@;
    let mut rest = rs;
    let mut t: Vec<RouteResult> = Vec::new();
    let mut u: Vec<RouteResult> = Vec::new();
    let mut m: Vec<RouteResult> = Vec::new();
    let mut k: usize = 0;
    let n = rest.len();
    while rest.len() > 0
        invariant
            n == orig.len(),
            k + rest@.len() == n,
            rest@ == orig.skip(k as int),
            t@ == orig.take(k as int).filter(|r: RouteResult| r.carrier == Carrier::Telecom),
            u@ == orig.take(k as int).filter(|r: RouteResult| r.carrier == Carrier::Unicom),
            m@ == orig.take(k as int).filter(|r: RouteResult| r.carrier == Carrier::Mobile),
        decreases rest@.len(),
    {
        proof {
            reveal_with_fuel(Seq::filter, 1);
            assert(orig.take(k + 1).drop_last() =~= orig.take(k as int));
            assert(orig.take(k + 1).last() == orig[k as int]);
        }
        let x = rest.remove(0);
        assert(x == orig[k as int]);
        match x.carrier {
            Carrier::Telecom => t.push(x),
            Carrier::Unicom => u.push(x),
            Carrier::Mobile => m.push(x),
        }
        k += 1;
        assert(rest@ =~= orig.skip(k as int));
    }
    assert(orig.take(n as int) =~= orig);
    t.append(&mut u);
    t.append(&mut m);
    assert(t@ =~= carrier_order(orig));
    t
}

// ───────────────────────── report section ─────────────────────────

/// Round-trip time in tenths of a millisecond, rounded half up.
pub open spec fn rtt_tenths(us: u64) -> nat {
    (us as nat + 50) / 100
}

pub open spec fn rtt_text(rtt: Option<u64>) -> Seq<char> {
    match rtt {
        Some(us) => crate::text::dec_text(rtt_tenths(us) / 10) + "."@ + crate::text::dec_text(rtt_tenths(us) % 10) + "ms"@,
        None => "—"@,
    }
}

pub open spec fn asn_text(asn: Option<u32>) -> Seq<char> {
    match asn {
        Some(a) => "AS"@ + crate::text::dec_text(a as nat),
        None => "—"@,
    }
}

pub open spec fn loc_text(country: Option<Seq<char>>, city: Option<Seq<char>>) -> Seq<char> {
    match (country, city) {
        (Some(c), Some(ci)) => c + " "@ + ci,
        (Some(c), None) => c,
        _ => "—"@,
    }
}

pub open spec fn hop_row(h: Hop) -> Seq<char> {
    "| "@ + crate::text::dec_text(h.ttl as nat) + " | "@
        + (match h.addr { Some(a) => a.text(), None => "*"@ }) + " | "@
        + rtt_text(h.rtt_us) + " | "@ + asn_text(h.asn) + " "@
        + (match h.as_org { Some(o) => o@, None => Seq::empty() }) + " | "@
        + loc_text(crate::probe::opt_view(h.country), crate::probe::opt_view(h.city)) + " |\n"@
}

pub open spec fn hop_rows(hs: Seq<Hop>) -> Seq<char>
    decreases hs.len(),
{
    if hs.len() == 0 { Seq::empty() } else { hop_rows(hs.drop_last()) + hop_row(hs.last()) }
}

pub open spec fn degraded_text(reason: Seq<char>, lang: Lang) -> Seq<char> {
    if reason == "need_privilege"@ { lang.text("需 root 运行"@, "needs root/cap_net_raw"@) } else { reason }
}

pub open spec fn overview_tail(r: RouteResult, lang: Lang) -> Seq<char> {
    match r.degraded {
        Some(reason) => " | — | "@ + degraded_text(reason@, lang) + " | — | — |\n"@,
        None => " | "@ + r.entry.label_text(lang) + " | "@ + r.line.label_text(lang) + " | "@
            + r.line.grade_of().label_text(lang) + " | "@ + crate::text::dec_text(r.hops@.len()) + " |\n"@,
    }
}

pub open spec fn overview_row(r: RouteResult, lang: Lang) -> Seq<char> {
    "| "@ + r.carrier.label_text(lang) + " | "@ + r.target_name@ + " "@ + r.target.text() + overview_tail(r, lang)
}

pub open spec fn overview_rows(rs: Seq<RouteResult>, lang: Lang) -> Seq<char>
    decreases rs.len(),
{
    if rs.len() == 0 { Seq::empty() } else { overview_rows(rs.drop_last(), lang) + overview_row(rs.last(), lang) }
}

pub open spec fn detail_block(r: RouteResult, lang: Lang) -> Seq<char> {
    if r.degraded is Some || r.hops@.len() == 0 {
        Seq::empty()
    } else {
        "### "@ + r.carrier.label_text(lang) + " "@ + r.target_name@ + " "@ + r.target.text() + "\n\n"@
            + "| # | IP | RTT | AS | "@ + lang.text("归属"@, "Location"@) + " |\n"@
            + "|---|---|---|---|---|\n"@ + hop_rows(r.hops@) + "\n"@
    }
}

pub open spec fn detail_blocks(rs: Seq<RouteResult>, lang: Lang) -> Seq<char>
    decreases rs.len(),
{
    if rs.len() == 0 { Seq::empty() } else { detail_blocks(rs.drop_last(), lang) + detail_block(rs.last(), lang) }
}

pub open spec fn route_head(lang: Lang) -> Seq<char> {
    "## "@ + lang.text("三网回程路由(traceroute)"@, "China route (traceroute)"@) + "\n\n"@
        + "> "@ + lang.text("启发式识别,仅供参考;需 root/cap_net_raw,无特权自动降级"@,
            "Heuristic; for reference only. Needs root/cap_net_raw, auto-degrades otherwise"@) + "\n"@
        + "\n"@
        + "| "@ + lang.text("运营商"@, "Carrier"@) + " | "@ + lang.text("目标节点"@, "Target"@)
        + " | "@ + lang.text("入境线"@, "Entry"@) + " | "@ + lang.text("回程线路"@, "Return line"@)
        + " | "@ + lang.text("质量"@, "Quality"@) + " | "@ + lang.text("跳数"@, "Hops"@) + " |\n"@
        + "|---|---|---|---|---|---|\n"@
}

pub open spec fn privilege_hint(rs: Seq<RouteResult>, lang: Lang) -> Seq<char> {
    if exists|i: int| 0 <= i < rs.len() && (#[trigger] rs[i]).degraded is Some {
        "\n> "@ + lang.text(
            "部分目标因无特权已降级:用 `sudo ipano --route`,或先 `sudo setcap cap_net_raw+ep <二进制>` 一次后免 sudo"@,
            "Some targets degraded (no privilege): run `sudo ipano --route`, or `sudo setcap cap_net_raw+ep <binary>` once to avoid sudo"@,
        ) + "\n"@
    } else {
        Seq::empty()
    }
}

/// The Markdown route section: overview table, a privilege hint when some
/// trace was degraded, then the hop table of every trace that has hops.
pub open spec fn route_section(rs: Seq<RouteResult>, lang: Lang) -> Seq<char> {
    route_head(lang) + overview_rows(rs, lang) + privilege_hint(rs, lang) + "\n"@ + detail_blocks(rs, lang)
}

fn push_rtt(out: &mut String, rtt: Option<u64>)
    ensures
        final(out)@ == old(out)@ + rtt_text(rtt),
{
    match rtt {
        Some(us) => {
            let t: u64 = if us > u64::MAX - 50 { (us / 100) + (if us % 100 >= 50 { 1u64 } else { 0u64 }) } else { (us + 50) / 100 };
            assert(t == rtt_tenths(us));
            let a = crate::text::uint_text(t / 10);
            push_text(out, a.as_str());
            push_text(out, ".");
            let b = crate::text::uint_text(t % 10);
            push_text(out, b.as_str());
            push_text(out, "ms");
        }
        None => push_text(out, "—"),
    }
}

fn push_addr(out: &mut String, addr: Option<Ipv4Addr>)
    ensures
        final(out)@ == old(out)@ + (match addr { Some(a) => a.text(), None => "*"@ }),
{
    match addr {
        Some(a) => {
            let ip = a.to_text();
            push_text(out, ip.as_str());
        }
        None => push_text(out, "*"),
    }
}

fn push_asn(out: &mut String, asn: Option<u32>)
    ensures
        final(out)@ == old(out)@ + asn_text(asn),
{
    match asn {
        Some(a) => {
            let ghost start = out@;
            push_text(out, "AS");
            let d = crate::text::uint_text(a as u64);
            push_text(out, d.as_str());
            assert(out@ =~= start + asn_text(asn));
        }
        None => push_text(out, "—"),
    }
}

fn push_loc(out: &mut String, country: &Option<String>, city: &Option<String>)
    ensures
        final(out)@ == old(out)@ + loc_text(crate::probe::opt_view(*country), crate::probe::opt_view(*city)),
{
    match (country, city) {
        (Some(c), Some(ci)) => {
            let ghost start = out@;
            push_text(out, c.as_str());
            push_text(out, " ");
            push_text(out, ci.as_str());
            assert(out@ =~= start + c@ + " "@ + ci@);
        }
        (Some(c), None) => push_text(out, c.as_str()),
        _ => push_text(out, "—"),
    }
}

#[verifier::rlimit(40)]
fn push_hop_row(out: &mut String, h: &Hop)
    ensures
        final(out)@ == old(out)@ + hop_row(*h),
{
    let ghost start = out@;
    push_text(out, "| ");
    let t = crate::text::uint_text(h.ttl as u64);
    push_text(out, t.as_str());
    push_text(out, " | ");
    push_addr(out, h.addr);
    push_text(out, " | ");
    push_rtt(out, h.rtt_us);
    push_text(out, " | ");
    push_asn(out, h.asn);
    push_text(out, " ");
    let ghost before_org = out@;
    match &h.as_org {
        Some(o) => push_text(out, o.as_str()),
        None => {}
    }
    assert(out@ =~= before_org + (match h.as_org { Some(o) => o@, None => Seq::empty() }));
    push_text(out, " | ");
    push_loc(out, &h.country, &h.city);
    push_text(out, " |\n");
    assert(out@ =~= start + hop_row(*h));
}

fn push_target(out: &mut String, r: &RouteResult, lang: Lang)
    ensures
        final(out)@ == old(out)@ + r.carrier.label_text(lang) + " "@ + r.target_name@ + " "@ + r.target.text(),
{
    let ghost start = out@;
    push_text(out, r.carrier.label(lang));
    push_text(out, " ");
    push_text(out, r.target_name.as_str());
    push_text(out, " ");
    let ip = r.target.to_text();
    push_text(out, ip.as_str());
    assert(out@ =~= start + r.carrier.label_text(lang) + " "@ + r.target_name@ + " "@ + r.target.text());
}

fn push_reason(out: &mut String, reason: &String, lang: Lang)
    ensures
        final(out)@ == old(out)@ + degraded_text(reason@, lang),
{
    let np = crate::text::chars_of(reason.as_str());
    if crate::text::is_text(np.as_slice(), "need_privilege") {
        push_text(out, lang.pick("需 root 运行", "needs root/cap_net_raw"));
    } else {
        push_text(out, reason.as_str());
    }
}

fn push_line_cells(out: &mut String, r: &RouteResult, lang: Lang)
    ensures
        final(out)@ == old(out)@ + " | "@ + r.entry.label_text(lang) + " | "@ + r.line.label_text(lang) + " | "@
            + r.line.grade_of().label_text(lang) + " | "@ + crate::text::dec_text(r.hops@.len()) + " |\n"@,
{
    let ghost start = out@;
    push_text(out, " | ");
    push_text(out, r.entry.label(lang));
    push_text(out, " | ");
    push_text(out, r.line.label(lang));
    push_text(out, " | ");
    push_text(out, r.line.grade().label(lang));
    push_text(out, " | ");
    let n = crate::text::uint_text(r.hops.len() as u64);
    push_text(out, n.as_str());
    push_text(out, " |\n");
    assert(out@ =~= start + " | "@ + r.entry.label_text(lang) + " | "@ + r.line.label_text(lang) + " | "@
            + r.line.grade_of().label_text(lang) + " | "@ + crate::text::dec_text(r.hops@.len()) + " |\n"@);
}

fn push_overview_tail(out: &mut String, r: &RouteResult, lang: Lang)
    ensures
        final(out)@ == old(out)@ + overview_tail(*r, lang),
{
    let ghost start = out@;
    match &r.degraded {
        Some(reason) => {
            push_text(out, " | — | ");
            push_reason(out, reason, lang);
            push_text(out, " | — | — |\n");
            assert(out@ =~= start + overview_tail(*r, lang));
        }
        None => {
            push_line_cells(out, r, lang);
        }
    }
}

fn push_overview_row(out: &mut String, r: &RouteResult, lang: Lang)
    ensures
        final(out)@ == old(out)@ + overview_row(*r, lang),
{
    let ghost start = out@;
    push_text(out, "| ");
    push_text(out, r.carrier.label(lang));
    push_text(out, " | ");
    push_text(out, r.target_name.as_str());
    push_text(out, " ");
    let ip = r.target.to_text();
    push_text(out, ip.as_str());
    push_overview_tail(out, r, lang);
    assert(out@ =~= start + overview_row(*r, lang));
}

#[verifier::rlimit(40)]
fn push_detail(out: &mut String, r: &RouteResult, lang: Lang)
    ensures
        final(out)@ == old(out)@ + detail_block(*r, lang),
{
    if r.degraded.is_some() || r.hops.len() == 0 {
        assert(out@ =~= old(out)@ + detail_block(*r, lang));
        return;
    }
    let ghost start = out@;
    push_text(out, "### ");
    push_target(out, r, lang);
    push_text(out, "\n\n");
    push_text(out, "| # | IP | RTT | AS | ");
    push_text(out, lang.pick("归属", "Location"));
    push_text(out, " |\n");
    push_text(out, "|---|---|---|---|---|\n");
    let ghost mid = out@;
    let mut i: usize = 0;
    while i < r.hops.len()
        invariant
            i <= r.hops@.len(),
            out@ == mid + hop_rows(r.hops@.take(i as int)),
        decreases r.hops.len() - i,
    {
        assert(r.hops@.take(i + 1).drop_last() =~= r.hops@.take(i as int));
        push_hop_row(out, &r.hops[i]);
        i += 1;
    }
    assert(r.hops@.take(r.hops@.len() as int) =~= r.hops@);
    push_text(out, "\n");
    assert(out@ =~= start + detail_block(*r, lang));
}

/// Markdown section of the return routes (see `route_section`).
pub fn render_section(routes: &[RouteResult], lang: Lang) -> (out: String)
    ensures
        out@ == route_section(routes@, lang),
{
    let mut out = String::new();
    push_text(&mut out, "## ");
    push_text(&mut out, lang.pick("三网回程路由(traceroute)", "China route (traceroute)"));
    push_text(&mut out, "\n\n");
    push_text(&mut out, "> ");
    push_text(&mut out, lang.pick(
        "启发式识别,仅供参考;需 root/cap_net_raw,无特权自动降级",
        "Heuristic; for reference only. Needs root/cap_net_raw, auto-degrades otherwise",
    ));
    push_text(&mut out, "\n");
    push_text(&mut out, "\n");
    push_text(&mut out, "| ");
    push_text(&mut out, lang.pick("运营商", "Carrier"));
    push_text(&mut out, " | ");
    push_text(&mut out, lang.pick("目标节点", "Target"));
    push_text(&mut out, " | ");
    push_text(&mut out, lang.pick("入境线", "Entry"));
    push_text(&mut out, " | ");
    push_text(&mut out, lang.pick("回程线路", "Return line"));
    push_text(&mut out, " | ");
    push_text(&mut out, lang.pick("质量", "Quality"));
    push_text(&mut out, " | ");
    push_text(&mut out, lang.pick("跳数", "Hops"));
    push_text(&mut out, " |\n");
    push_text(&mut out, "|---|---|---|---|---|---|\n");
    assert(out@ =~= route_head(lang));
    let ghost head = out@;
    let mut any_degraded = false;
    let mut i: usize = 0;
    while i < routes.len()
        invariant
            i <= routes@.len(),
            out@ == head + overview_rows(routes@.take(i as int), lang),
            any_degraded == exists|k: int| 0 <= k < i && (#[trigger] routes@[k]).degraded is Some,
        decreases routes.len() - i,
    {
        assert(routes@.take(i + 1).drop_last() =~= routes@.take(i as int));
        push_overview_row(&mut out, &routes[i], lang);
        if routes[i].degraded.is_some() {
            any_degraded = true;
        }
        i += 1;
    }
    assert(routes@.take(routes@.len() as int) =~= routes@);
    let ghost with_rows = out@;
    if any_degraded {
        push_text(&mut out, "\n> ");
        push_text(&mut out, lang.pick(
            "部分目标因无特权已降级:用 `sudo ipano --route`,或先 `sudo setcap cap_net_raw+ep <二进制>` 一次后免 sudo",
            "Some targets degraded (no privilege): run `sudo ipano --route`, or `sudo setcap cap_net_raw+ep <binary>` once to avoid sudo",
        ));
        push_text(&mut out, "\n");
    }
    assert(out@ =~= with_rows + privilege_hint(routes@, lang));
    push_text(&mut out, "\n");
    let ghost mid = out@;
    let mut j: usize = 0;
    while j < routes.len()
        invariant
            j <= routes@.len(),
            out@ == mid + detail_blocks(routes@.take(j as int), lang),
        decreases routes.len() - j,
    {
        assert(routes@.take(j + 1).drop_last() =~= routes@.take(j as int));
        push_detail(&mut out, &routes[j], lang);
        j += 1;
    }
    assert(routes@.take(routes@.len() as int) =~= routes@);
    assert(out@ =~= route_section(routes@, lang));
    out
}

} // verus!
