//! Merging the sources' findings into one report: source status, priority
//! order, first-found field values and the majority vote on `is_datacenter`.

use vstd::prelude::*;
use crate::model::{opt_text, AiVerdict, IpType, SourceData, SourceDataV, SourceError, blank};
use crate::probe::copy_opt;
use crate::text::{chars_of, is_text, owned};

verus! {

/// Outcome of one source in the report: its id, whether it answered, and the
/// error message when it did not.
pub struct SourceStatus {
    pub id: String,
    pub ok: bool,
    pub error: Option<String>,
}

pub ghost struct SourceStatusV {
    pub id: Seq<char>,
    pub ok: bool,
    pub error: Option<Seq<char>>,
}

impl View for SourceStatus {
    type V = SourceStatusV;

    open spec fn view(&self) -> SourceStatusV {
        SourceStatusV { id: self.id@, ok: self.ok, error: opt_text(self.error) }
    }
}

/// The merged report: the queried address, one value per field (taken from
/// the most trusted source that has it), the status of every source and the
/// answering sources' own records in priority order.
pub struct MergedReport {
    pub ip: Option<String>,
    pub asn: Option<u32>,
    pub as_org: Option<String>,
    pub isp: Option<String>,
    pub org: Option<String>,
    pub country: Option<String>,
    pub region: Option<String>,
    pub city: Option<String>,
    pub lat: Option<String>,
    pub lon: Option<String>,
    pub timezone: Option<String>,
    pub rdns: Option<String>,
    pub ip_type: Option<IpType>,
    pub is_proxy: Option<bool>,
    pub is_vpn: Option<bool>,
    pub is_tor: Option<bool>,
    pub is_hosting: Option<bool>,
    pub trust_score: Option<i64>,
    pub risk_score: Option<i64>,
    pub abuser_score: Option<String>,
    pub rep_threat: Option<i64>,
    pub ai_verdict: Option<AiVerdict>,
    pub is_abuser: Option<bool>,
    pub is_crawler: Option<bool>,
    pub is_mobile: Option<bool>,
    pub is_residential: Option<bool>,
    pub fraud_score: Option<i64>,
    pub abuseipdb_score: Option<i64>,
    pub ipqs_score: Option<i64>,
    pub usage_type: Option<String>,
    pub company_type: Option<String>,
    pub asn_abuse_score: Option<String>,
    pub company_abuse_score: Option<String>,
    pub is_datacenter: Option<bool>,
    pub threat_level: Option<String>,
    pub human_traffic_pct: Option<String>,
    pub bot_traffic_pct: Option<String>,
    pub browser_dist: Option<String>,
    pub device_dist: Option<String>,
    pub os_dist: Option<String>,
    pub is_cloud: Option<bool>,
    pub is_relay: Option<bool>,
    pub is_anonymous: Option<bool>,
    pub is_bogon: Option<bool>,
    pub blacklist_harmless: Option<u32>,
    pub blacklist_malicious: Option<u32>,
    pub blacklist_suspicious: Option<u32>,
    pub blacklist_undetected: Option<u32>,
    pub sources: Vec<SourceStatus>,
    pub raw: Vec<SourceData>,
}

impl Default for MergedReport {
    /// An empty report: no address, no field, no source.
    fn default() -> (m: MergedReport)
        ensures
            m.ip is None,
            m.fields() == blank(Seq::empty()),
            m.sources@.len() == 0,
            m.raw@.len() == 0,
    {
        MergedReport {
            ip: None,
            asn: None,
            as_org: None,
            isp: None,
            org: None,
            country: None,
            region: None,
            city: None,
            lat: None,
            lon: None,
            timezone: None,
            rdns: None,
            ip_type: None,
            is_proxy: None,
            is_vpn: None,
            is_tor: None,
            is_hosting: None,
            trust_score: None,
            risk_score: None,
            abuser_score: None,
            rep_threat: None,
            ai_verdict: None,
            is_abuser: None,
            is_crawler: None,
            is_mobile: None,
            is_residential: None,
            fraud_score: None,
            abuseipdb_score: None,
            ipqs_score: None,
            usage_type: None,
            company_type: None,
            asn_abuse_score: None,
            company_abuse_score: None,
            is_datacenter: None,
            threat_level: None,
            human_traffic_pct: None,
            bot_traffic_pct: None,
            browser_dist: None,
            device_dist: None,
            os_dist: None,
            is_cloud: None,
            is_relay: None,
            is_anonymous: None,
            is_bogon: None,
            blacklist_harmless: None,
            blacklist_malicious: None,
            blacklist_suspicious: None,
            blacklist_undetected: None,
            sources: Vec::new(),
            raw: Vec::new(),
        }
    }
}

/// The records of a list, by their views.
pub open spec fn views(s: Seq<SourceData>) -> Seq<SourceDataV> {
    s.map_values(|d: SourceData| d@)
}

/// The statuses of a list, by their views.
pub open spec fn status_views(s: Seq<SourceStatus>) -> Seq<SourceStatusV> {
    s.map_values(|x: SourceStatus| x@)
}

impl MergedReport {
    /// The report's field values as a record (with an empty source id).
    pub open spec fn fields(self) -> SourceDataV {
        SourceDataV {
            source_id: Seq::empty(),
            asn: self.asn,
            as_org: opt_text(self.as_org),
            isp: opt_text(self.isp),
            org: opt_text(self.org),
            country: opt_text(self.country),
            region: opt_text(self.region),
            city: opt_text(self.city),
            lat: opt_text(self.lat),
            lon: opt_text(self.lon),
            timezone: opt_text(self.timezone),
            rdns: opt_text(self.rdns),
            ip_type: self.ip_type,
            is_proxy: self.is_proxy,
            is_vpn: self.is_vpn,
            is_tor: self.is_tor,
            is_hosting: self.is_hosting,
            trust_score: self.trust_score,
            risk_score: self.risk_score,
            abuser_score: opt_text(self.abuser_score),
            rep_threat: self.rep_threat,
            ai_verdict: match self.ai_verdict { Some(v) => Some(v@), None => None },
            is_abuser: self.is_abuser,
            is_crawler: self.is_crawler,
            is_mobile: self.is_mobile,
            is_residential: self.is_residential,
            fraud_score: self.fraud_score,
            abuseipdb_score: self.abuseipdb_score,
            ipqs_score: self.ipqs_score,
            usage_type: opt_text(self.usage_type),
            company_type: opt_text(self.company_type),
            asn_abuse_score: opt_text(self.asn_abuse_score),
            company_abuse_score: opt_text(self.company_abuse_score),
            is_datacenter: self.is_datacenter,
            threat_level: opt_text(self.threat_level),
            human_traffic_pct: opt_text(self.human_traffic_pct),
            bot_traffic_pct: opt_text(self.bot_traffic_pct),
            browser_dist: opt_text(self.browser_dist),
            device_dist: opt_text(self.device_dist),
            os_dist: opt_text(self.os_dist),
            is_cloud: self.is_cloud,
            is_relay: self.is_relay,
            is_anonymous: self.is_anonymous,
            is_bogon: self.is_bogon,
            blacklist_harmless: self.blacklist_harmless,
            blacklist_malicious: self.blacklist_malicious,
            blacklist_suspicious: self.blacklist_suspicious,
            blacklist_undetected: self.blacklist_undetected,
        }
    }
}

/// `a` where it holds a value, else `b`.
pub open spec fn or_else<T>(a: Option<T>, b: Option<T>) -> Option<T> {
    if a is Some { a } else { b }
}

/// `acc` with every empty field (but `is_datacenter`, which is voted on)
/// taken from `d`.
pub open spec fn fill(acc: SourceDataV, d: SourceDataV) -> SourceDataV {
    SourceDataV {
        source_id: acc.source_id,
        asn: or_else(acc.asn, d.asn),
        as_org: or_else(acc.as_org, d.as_org),
        isp: or_else(acc.isp, d.isp),
        org: or_else(acc.org, d.org),
        country: or_else(acc.country, d.country),
        region: or_else(acc.region, d.region),
        city: or_else(acc.city, d.city),
        lat: or_else(acc.lat, d.lat),
        lon: or_else(acc.lon, d.lon),
        timezone: or_else(acc.timezone, d.timezone),
        rdns: or_else(acc.rdns, d.rdns),
        ip_type: or_else(acc.ip_type, d.ip_type),
        is_proxy: or_else(acc.is_proxy, d.is_proxy),
        is_vpn: or_else(acc.is_vpn, d.is_vpn),
        is_tor: or_else(acc.is_tor, d.is_tor),
        is_hosting: or_else(acc.is_hosting, d.is_hosting),
        trust_score: or_else(acc.trust_score, d.trust_score),
        risk_score: or_else(acc.risk_score, d.risk_score),
        abuser_score: or_else(acc.abuser_score, d.abuser_score),
        rep_threat: or_else(acc.rep_threat, d.rep_threat),
        ai_verdict: or_else(acc.ai_verdict, d.ai_verdict),
        is_abuser: or_else(acc.is_abuser, d.is_abuser),
        is_crawler: or_else(acc.is_crawler, d.is_crawler),
        is_mobile: or_else(acc.is_mobile, d.is_mobile),
        is_residential: or_else(acc.is_residential, d.is_residential),
        fraud_score: or_else(acc.fraud_score, d.fraud_score),
        abuseipdb_score: or_else(acc.abuseipdb_score, d.abuseipdb_score),
        ipqs_score: or_else(acc.ipqs_score, d.ipqs_score),
        usage_type: or_else(acc.usage_type, d.usage_type),
        company_type: or_else(acc.company_type, d.company_type),
        asn_abuse_score: or_else(acc.asn_abuse_score, d.asn_abuse_score),
        company_abuse_score: or_else(acc.company_abuse_score, d.company_abuse_score),
        is_datacenter: acc.is_datacenter,
        threat_level: or_else(acc.threat_level, d.threat_level),
        human_traffic_pct: or_else(acc.human_traffic_pct, d.human_traffic_pct),
        bot_traffic_pct: or_else(acc.bot_traffic_pct, d.bot_traffic_pct),
        browser_dist: or_else(acc.browser_dist, d.browser_dist),
        device_dist: or_else(acc.device_dist, d.device_dist),
        os_dist: or_else(acc.os_dist, d.os_dist),
        is_cloud: or_else(acc.is_cloud, d.is_cloud),
        is_relay: or_else(acc.is_relay, d.is_relay),
        is_anonymous: or_else(acc.is_anonymous, d.is_anonymous),
        is_bogon: or_else(acc.is_bogon, d.is_bogon),
        blacklist_harmless: or_else(acc.blacklist_harmless, d.blacklist_harmless),
        blacklist_malicious: or_else(acc.blacklist_malicious, d.blacklist_malicious),
        blacklist_suspicious: or_else(acc.blacklist_suspicious, d.blacklist_suspicious),
        blacklist_undetected: or_else(acc.blacklist_undetected, d.blacklist_undetected),
    }
}

/// Field values picked from records in order: each field holds the value of
/// the first record that has one.
pub open spec fn picked(s: Seq<SourceDataV>) -> SourceDataV
    decreases s.len(),
{
    if s.len() == 0 {
        blank(Seq::empty())
    } else {
        fill(picked(s.drop_last()), s.last())
    }
}

/// The first value present in a sequence of optional values.
pub open spec fn first_some<T>(s: Seq<Option<T>>) -> Option<T>
    decreases s.len(),
{
    if s.len() == 0 {
        None
    } else {
        or_else(first_some(s.drop_last()), s.last())
    }
}

/// The first value present: `None` exactly when no value is present, else the
/// value at the first position that has one.
pub proof fn lemma_first_some<T>(s: Seq<Option<T>>)
    ensures
        first_some(s) is None <==> (forall|i: int| 0 <= i < s.len() ==> s[i] is None),
        first_some(s) is Some ==> exists|i: int|
            0 <= i < s.len() && s[i] == first_some(s) && (forall|j: int| 0 <= j < i ==> s[j] is None),
    decreases s.len(),
{
    if s.len() > 0 {
        let p = s.drop_last();
        lemma_first_some(p);
        assert(forall|j: int| 0 <= j < p.len() ==> s[j] == p[j]);
        if first_some(p) is Some {
            let i = choose|i: int| 0 <= i < p.len() && p[i] == first_some(p) && (forall|j: int| 0 <= j < i ==> p[j] is None);
            assert(s[i] == first_some(s));
        } else {
            assert(forall|i: int| 0 <= i < p.len() ==> s[i] == p[i]);
            if s.last() is Some {
                let i = s.len() - 1;
                assert(s[i] == first_some(s));
                assert(forall|j: int| 0 <= j < i ==> s[j] is None);
            }
        }
    }
}

/// Every merged field (all but `is_datacenter`) holds the first value present
/// among the records, taken in their order.
pub proof fn lemma_picked_is_first(s: Seq<SourceDataV>)
    ensures
        picked(s).asn == first_some(s.map_values(|d: SourceDataV| d.asn)),
        picked(s).as_org == first_some(s.map_values(|d: SourceDataV| d.as_org)),
        picked(s).isp == first_some(s.map_values(|d: SourceDataV| d.isp)),
        picked(s).org == first_some(s.map_values(|d: SourceDataV| d.org)),
        picked(s).country == first_some(s.map_values(|d: SourceDataV| d.country)),
        picked(s).region == first_some(s.map_values(|d: SourceDataV| d.region)),
        picked(s).city == first_some(s.map_values(|d: SourceDataV| d.city)),
        picked(s).lat == first_some(s.map_values(|d: SourceDataV| d.lat)),
        picked(s).lon == first_some(s.map_values(|d: SourceDataV| d.lon)),
        picked(s).timezone == first_some(s.map_values(|d: SourceDataV| d.timezone)),
        picked(s).rdns == first_some(s.map_values(|d: SourceDataV| d.rdns)),
        picked(s).ip_type == first_some(s.map_values(|d: SourceDataV| d.ip_type)),
        picked(s).is_proxy == first_some(s.map_values(|d: SourceDataV| d.is_proxy)),
        picked(s).is_vpn == first_some(s.map_values(|d: SourceDataV| d.is_vpn)),
        picked(s).is_tor == first_some(s.map_values(|d: SourceDataV| d.is_tor)),
        picked(s).is_hosting == first_some(s.map_values(|d: SourceDataV| d.is_hosting)),
        picked(s).trust_score == first_some(s.map_values(|d: SourceDataV| d.trust_score)),
        picked(s).risk_score == first_some(s.map_values(|d: SourceDataV| d.risk_score)),
        picked(s).abuser_score == first_some(s.map_values(|d: SourceDataV| d.abuser_score)),
        picked(s).rep_threat == first_some(s.map_values(|d: SourceDataV| d.rep_threat)),
        picked(s).ai_verdict == first_some(s.map_values(|d: SourceDataV| d.ai_verdict)),
        picked(s).is_abuser == first_some(s.map_values(|d: SourceDataV| d.is_abuser)),
        picked(s).is_crawler == first_some(s.map_values(|d: SourceDataV| d.is_crawler)),
        picked(s).is_mobile == first_some(s.map_values(|d: SourceDataV| d.is_mobile)),
        picked(s).is_residential == first_some(s.map_values(|d: SourceDataV| d.is_residential)),
        picked(s).fraud_score == first_some(s.map_values(|d: SourceDataV| d.fraud_score)),
        picked(s).abuseipdb_score == first_some(s.map_values(|d: SourceDataV| d.abuseipdb_score)),
        picked(s).ipqs_score == first_some(s.map_values(|d: SourceDataV| d.ipqs_score)),
        picked(s).usage_type == first_some(s.map_values(|d: SourceDataV| d.usage_type)),
        picked(s).company_type == first_some(s.map_values(|d: SourceDataV| d.company_type)),
        picked(s).asn_abuse_score == first_some(s.map_values(|d: SourceDataV| d.asn_abuse_score)),
        picked(s).company_abuse_score == first_some(s.map_values(|d: SourceDataV| d.company_abuse_score)),
        picked(s).threat_level == first_some(s.map_values(|d: SourceDataV| d.threat_level)),
        picked(s).human_traffic_pct == first_some(s.map_values(|d: SourceDataV| d.human_traffic_pct)),
        picked(s).bot_traffic_pct == first_some(s.map_values(|d: SourceDataV| d.bot_traffic_pct)),
        picked(s).browser_dist == first_some(s.map_values(|d: SourceDataV| d.browser_dist)),
        picked(s).device_dist == first_some(s.map_values(|d: SourceDataV| d.device_dist)),
        picked(s).os_dist == first_some(s.map_values(|d: SourceDataV| d.os_dist)),
        picked(s).is_cloud == first_some(s.map_values(|d: SourceDataV| d.is_cloud)),
        picked(s).is_relay == first_some(s.map_values(|d: SourceDataV| d.is_relay)),
        picked(s).is_anonymous == first_some(s.map_values(|d: SourceDataV| d.is_anonymous)),
        picked(s).is_bogon == first_some(s.map_values(|d: SourceDataV| d.is_bogon)),
        picked(s).blacklist_harmless == first_some(s.map_values(|d: SourceDataV| d.blacklist_harmless)),
        picked(s).blacklist_malicious == first_some(s.map_values(|d: SourceDataV| d.blacklist_malicious)),
        picked(s).blacklist_suspicious == first_some(s.map_values(|d: SourceDataV| d.blacklist_suspicious)),
        picked(s).blacklist_undetected == first_some(s.map_values(|d: SourceDataV| d.blacklist_undetected)),
    decreases s.len(),
{
    if s.len() > 0 {
        lemma_picked_is_first(s.drop_last());
        assert(s.map_values(|d: SourceDataV| d.asn).drop_last() =~= s.drop_last().map_values(|d: SourceDataV| d.asn));
        assert(s.map_values(|d: SourceDataV| d.as_org).drop_last() =~= s.drop_last().map_values(|d: SourceDataV| d.as_org));
        assert(s.map_values(|d: SourceDataV| d.isp).drop_last() =~= s.drop_last().map_values(|d: SourceDataV| d.isp));
        assert(s.map_values(|d: SourceDataV| d.org).drop_last() =~= s.drop_last().map_values(|d: SourceDataV| d.org));
        assert(s.map_values(|d: SourceDataV| d.country).drop_last() =~= s.drop_last().map_values(|d: SourceDataV| d.country));
        assert(s.map_values(|d: SourceDataV| d.region).drop_last() =~= s.drop_last().map_values(|d: SourceDataV| d.region));
        assert(s.map_values(|d: SourceDataV| d.city).drop_last() =~= s.drop_last().map_values(|d: SourceDataV| d.city));
        assert(s.map_values(|d: SourceDataV| d.lat).drop_last() =~= s.drop_last().map_values(|d: SourceDataV| d.lat));
        assert(s.map_values(|d: SourceDataV| d.lon).drop_last() =~= s.drop_last().map_values(|d: SourceDataV| d.lon));
        assert(s.map_values(|d: SourceDataV| d.timezone).drop_last() =~= s.drop_last().map_values(|d: SourceDataV| d.timezone));
        assert(s.map_values(|d: SourceDataV| d.rdns).drop_last() =~= s.drop_last().map_values(|d: SourceDataV| d.rdns));
        assert(s.map_values(|d: SourceDataV| d.ip_type).drop_last() =~= s.drop_last().map_values(|d: SourceDataV| d.ip_type));
        assert(s.map_values(|d: SourceDataV| d.is_proxy).drop_last() =~= s.drop_last().map_values(|d: SourceDataV| d.is_proxy));
        assert(s.map_values(|d: SourceDataV| d.is_vpn).drop_last() =~= s.drop_last().map_values(|d: SourceDataV| d.is_vpn));
        assert(s.map_values(|d: SourceDataV| d.is_tor).drop_last() =~= s.drop_last().map_values(|d: SourceDataV| d.is_tor));
        assert(s.map_values(|d: SourceDataV| d.is_hosting).drop_last() =~= s.drop_last().map_values(|d: SourceDataV| d.is_hosting));
        assert(s.map_values(|d: SourceDataV| d.trust_score).drop_last() =~= s.drop_last().map_values(|d: SourceDataV| d.trust_score));
        assert(s.map_values(|d: SourceDataV| d.risk_score).drop_last() =~= s.drop_last().map_values(|d: SourceDataV| d.risk_score));
        assert(s.map_values(|d: SourceDataV| d.abuser_score).drop_last() =~= s.drop_last().map_values(|d: SourceDataV| d.abuser_score));
        assert(s.map_values(|d: SourceDataV| d.rep_threat).drop_last() =~= s.drop_last().map_values(|d: SourceDataV| d.rep_threat));
        assert(s.map_values(|d: SourceDataV| d.ai_verdict).drop_last() =~= s.drop_last().map_values(|d: SourceDataV| d.ai_verdict));
        assert(s.map_values(|d: SourceDataV| d.is_abuser).drop_last() =~= s.drop_last().map_values(|d: SourceDataV| d.is_abuser));
        assert(s.map_values(|d: SourceDataV| d.is_crawler).drop_last() =~= s.drop_last().map_values(|d: SourceDataV| d.is_crawler));
        assert(s.map_values(|d: SourceDataV| d.is_mobile).drop_last() =~= s.drop_last().map_values(|d: SourceDataV| d.is_mobile));
        assert(s.map_values(|d: SourceDataV| d.is_residential).drop_last() =~= s.drop_last().map_values(|d: SourceDataV| d.is_residential));
        assert(s.map_values(|d: SourceDataV| d.fraud_score).drop_last() =~= s.drop_last().map_values(|d: SourceDataV| d.fraud_score));
        assert(s.map_values(|d: SourceDataV| d.abuseipdb_score).drop_last() =~= s.drop_last().map_values(|d: SourceDataV| d.abuseipdb_score));
        assert(s.map_values(|d: SourceDataV| d.ipqs_score).drop_last() =~= s.drop_last().map_values(|d: SourceDataV| d.ipqs_score));
        assert(s.map_values(|d: SourceDataV| d.usage_type).drop_last() =~= s.drop_last().map_values(|d: SourceDataV| d.usage_type));
        assert(s.map_values(|d: SourceDataV| d.company_type).drop_last() =~= s.drop_last().map_values(|d: SourceDataV| d.company_type));
        assert(s.map_values(|d: SourceDataV| d.asn_abuse_score).drop_last() =~= s.drop_last().map_values(|d: SourceDataV| d.asn_abuse_score));
        assert(s.map_values(|d: SourceDataV| d.company_abuse_score).drop_last() =~= s.drop_last().map_values(|d: SourceDataV| d.company_abuse_score));
        assert(s.map_values(|d: SourceDataV| d.threat_level).drop_last() =~= s.drop_last().map_values(|d: SourceDataV| d.threat_level));
        assert(s.map_values(|d: SourceDataV| d.human_traffic_pct).drop_last() =~= s.drop_last().map_values(|d: SourceDataV| d.human_traffic_pct));
        assert(s.map_values(|d: SourceDataV| d.bot_traffic_pct).drop_last() =~= s.drop_last().map_values(|d: SourceDataV| d.bot_traffic_pct));
        assert(s.map_values(|d: SourceDataV| d.browser_dist).drop_last() =~= s.drop_last().map_values(|d: SourceDataV| d.browser_dist));
        assert(s.map_values(|d: SourceDataV| d.device_dist).drop_last() =~= s.drop_last().map_values(|d: SourceDataV| d.device_dist));
        assert(s.map_values(|d: SourceDataV| d.os_dist).drop_last() =~= s.drop_last().map_values(|d: SourceDataV| d.os_dist));
        assert(s.map_values(|d: SourceDataV| d.is_cloud).drop_last() =~= s.drop_last().map_values(|d: SourceDataV| d.is_cloud));
        assert(s.map_values(|d: SourceDataV| d.is_relay).drop_last() =~= s.drop_last().map_values(|d: SourceDataV| d.is_relay));
        assert(s.map_values(|d: SourceDataV| d.is_anonymous).drop_last() =~= s.drop_last().map_values(|d: SourceDataV| d.is_anonymous));
        assert(s.map_values(|d: SourceDataV| d.is_bogon).drop_last() =~= s.drop_last().map_values(|d: SourceDataV| d.is_bogon));
        assert(s.map_values(|d: SourceDataV| d.blacklist_harmless).drop_last() =~= s.drop_last().map_values(|d: SourceDataV| d.blacklist_harmless));
        assert(s.map_values(|d: SourceDataV| d.blacklist_malicious).drop_last() =~= s.drop_last().map_values(|d: SourceDataV| d.blacklist_malicious));
        assert(s.map_values(|d: SourceDataV| d.blacklist_suspicious).drop_last() =~= s.drop_last().map_values(|d: SourceDataV| d.blacklist_suspicious));
        assert(s.map_values(|d: SourceDataV| d.blacklist_undetected).drop_last() =~= s.drop_last().map_values(|d: SourceDataV| d.blacklist_undetected));
    }
}

/// `a` where it holds a value, else a copy of `b`.
fn or_copy<T: Copy>(a: Option<T>, b: Option<T>) -> (r: Option<T>)
    ensures
        r == or_else(a, b),
{
    if a.is_some() { a } else { b }
}

fn or_copy_text(a: &Option<String>, b: &Option<String>) -> (r: Option<String>)
    ensures
        opt_text(r) == or_else(opt_text(*a), opt_text(*b)),
{
    if a.is_some() { copy_opt(a) } else { copy_opt(b) }
}

fn or_copy_verdict(a: &Option<AiVerdict>, b: &Option<AiVerdict>) -> (r: Option<AiVerdict>)
    ensures
        (match r { Some(v) => Some(v@), None => None }) == or_else(
            match *a { Some(v) => Some(v@), None => None },
            match *b { Some(v) => Some(v@), None => None },
        ),
{
    match a {
        Some(v) => Some(v.copy()),
        None => match b {
            Some(v) => Some(v.copy()),
            None => None,
        },
    }
}

/// Fills every empty field of `m` (but `is_datacenter`) from `d`.
#[verifier::rlimit(60)]
fn absorb(m: &mut MergedReport, d: &SourceData)
    ensures
        final(m).fields() == fill(old(m).fields(), d@),
        final(m).ip == old(m).ip,
        final(m).sources == old(m).sources,
        final(m).raw == old(m).raw,
{
    m.asn = or_copy(m.asn, d.asn);
    m.as_org = or_copy_text(&m.as_org, &d.as_org);
    m.isp = or_copy_text(&m.isp, &d.isp);
    m.org = or_copy_text(&m.org, &d.org);
    m.country = or_copy_text(&m.country, &d.country);
    m.region = or_copy_text(&m.region, &d.region);
    m.city = or_copy_text(&m.city, &d.city);
    m.lat = or_copy_text(&m.lat, &d.lat);
    m.lon = or_copy_text(&m.lon, &d.lon);
    m.timezone = or_copy_text(&m.timezone, &d.timezone);
    m.rdns = or_copy_text(&m.rdns, &d.rdns);
    m.ip_type = or_copy(m.ip_type, d.ip_type);
    m.is_proxy = or_copy(m.is_proxy, d.is_proxy);
    m.is_vpn = or_copy(m.is_vpn, d.is_vpn);
    m.is_tor = or_copy(m.is_tor, d.is_tor);
    m.is_hosting = or_copy(m.is_hosting, d.is_hosting);
    m.trust_score = or_copy(m.trust_score, d.trust_score);
    m.risk_score = or_copy(m.risk_score, d.risk_score);
    m.abuser_score = or_copy_text(&m.abuser_score, &d.abuser_score);
    m.rep_threat = or_copy(m.rep_threat, d.rep_threat);
    m.ai_verdict = or_copy_verdict(&m.ai_verdict, &d.ai_verdict);
    m.is_abuser = or_copy(m.is_abuser, d.is_abuser);
    m.is_crawler = or_copy(m.is_crawler, d.is_crawler);
    m.is_mobile = or_copy(m.is_mobile, d.is_mobile);
    m.is_residential = or_copy(m.is_residential, d.is_residential);
    m.fraud_score = or_copy(m.fraud_score, d.fraud_score);
    m.abuseipdb_score = or_copy(m.abuseipdb_score, d.abuseipdb_score);
    m.ipqs_score = or_copy(m.ipqs_score, d.ipqs_score);
    m.usage_type = or_copy_text(&m.usage_type, &d.usage_type);
    m.company_type = or_copy_text(&m.company_type, &d.company_type);
    m.asn_abuse_score = or_copy_text(&m.asn_abuse_score, &d.asn_abuse_score);
    m.company_abuse_score = or_copy_text(&m.company_abuse_score, &d.company_abuse_score);
    m.threat_level = or_copy_text(&m.threat_level, &d.threat_level);
    m.human_traffic_pct = or_copy_text(&m.human_traffic_pct, &d.human_traffic_pct);
    m.bot_traffic_pct = or_copy_text(&m.bot_traffic_pct, &d.bot_traffic_pct);
    m.browser_dist = or_copy_text(&m.browser_dist, &d.browser_dist);
    m.device_dist = or_copy_text(&m.device_dist, &d.device_dist);
    m.os_dist = or_copy_text(&m.os_dist, &d.os_dist);
    m.is_cloud = or_copy(m.is_cloud, d.is_cloud);
    m.is_relay = or_copy(m.is_relay, d.is_relay);
    m.is_anonymous = or_copy(m.is_anonymous, d.is_anonymous);
    m.is_bogon = or_copy(m.is_bogon, d.is_bogon);
    m.blacklist_harmless = or_copy(m.blacklist_harmless, d.blacklist_harmless);
    m.blacklist_malicious = or_copy(m.blacklist_malicious, d.blacklist_malicious);
    m.blacklist_suspicious = or_copy(m.blacklist_suspicious, d.blacklist_suspicious);
    m.blacklist_undetected = or_copy(m.blacklist_undetected, d.blacklist_undetected);
}

/// A report for `ip` with no field filled.
fn empty_report(ip: &str) -> (m: MergedReport)
    ensures
        m.fields() == blank(Seq::empty()),
        opt_text(m.ip) == Some(ip@),
        m.sources@.len() == 0,
        m.raw@.len() == 0,
{
    MergedReport {
        ip: Some(owned(ip)),
        asn: None,
        as_org: None,
        isp: None,
        org: None,
        country: None,
        region: None,
        city: None,
        lat: None,
        lon: None,
        timezone: None,
        rdns: None,
        ip_type: None,
        is_proxy: None,
        is_vpn: None,
        is_tor: None,
        is_hosting: None,
        trust_score: None,
        risk_score: None,
        abuser_score: None,
        rep_threat: None,
        ai_verdict: None,
        is_abuser: None,
        is_crawler: None,
        is_mobile: None,
        is_residential: None,
        fraud_score: None,
        abuseipdb_score: None,
        ipqs_score: None,
        usage_type: None,
        company_type: None,
        asn_abuse_score: None,
        company_abuse_score: None,
        is_datacenter: None,
        threat_level: None,
        human_traffic_pct: None,
        bot_traffic_pct: None,
        browser_dist: None,
        device_dist: None,
        os_dist: None,
        is_cloud: None,
        is_relay: None,
        is_anonymous: None,
        is_bogon: None,
        blacklist_harmless: None,
        blacklist_malicious: None,
        blacklist_suspicious: None,
        blacklist_undetected: None,
        sources: Vec::new(),
        raw: Vec::new(),
    }
}

// ───────────────────────── priority order ─────────────────────────

/// Trust rank of a source id: the more trusted sources come first, every
/// other source after them (rank 7).
pub open spec fn rank(id: Seq<char>) -> nat {
    if id == "ipinfo"@ {
        0
    } else if id == "ipsb"@ {
        1
    } else if id == "netcoffee"@ {
        2
    } else if id == "ippure"@ {
        3
    } else if id == "ipapi"@ {
        4
    } else if id == "ipqs"@ {
        5
    } else if id == "abuseipdb"@ {
        6
    } else {
        7
    }
}

/// The sources in decreasing order of trust.
pub open spec fn priority_ids() -> Seq<Seq<char>> {
    seq!["ipinfo"@, "ipsb"@, "netcoffee"@, "ippure"@, "ipapi"@, "ipqs"@, "abuseipdb"@]
}

/// Position of `id` in `l` at or after `i`; the length of `l` where it is absent.
pub open spec fn position(l: Seq<Seq<char>>, id: Seq<char>, i: int) -> nat
    decreases l.len() - i,
{
    if i < 0 || i >= l.len() {
        l.len()
    } else if l[i] == id {
        i as nat
    } else {
        position(l, id, i + 1)
    }
}

/// The trust rank of a source is its place in the priority order; any other
/// source comes after all of them.
pub proof fn lemma_rank_is_priority_position(id: Seq<char>)
    ensures
        rank(id) == position(priority_ids(), id, 0),
{
    reveal_strlit("ipinfo");
    reveal_strlit("ipsb");
    reveal_strlit("netcoffee");
    reveal_strlit("ippure");
    reveal_strlit("ipapi");
    reveal_strlit("ipqs");
    reveal_strlit("abuseipdb");
    reveal_with_fuel(position, 8);
    let l = priority_ids();
    assert forall|i: int, j: int| 0 <= i < j < 7 implies l[i] != l[j] by {
        assert(l[i].len() != l[j].len() || l[i][2] != l[j][2] || l[i][3] != l[j][3]);
    }
}

/// The records of rank `r`, in their order.
pub open spec fn of_rank(s: Seq<SourceDataV>, r: nat) -> Seq<SourceDataV>
    decreases s.len(),
{
    if s.len() == 0 {
        Seq::empty()
    } else if rank(s.last().source_id) == r {
        of_rank(s.drop_last(), r).push(s.last())
    } else {
        of_rank(s.drop_last(), r)
    }
}

/// The records of rank `r` and above, rank by rank.
pub open spec fn ranked_from(s: Seq<SourceDataV>, r: nat) -> Seq<SourceDataV>
    decreases 8 - r,
{
    if r >= 8 {
        Seq::empty()
    } else {
        of_rank(s, r) + ranked_from(s, r + 1)
    }
}

/// The records stably sorted by trust rank.
pub open spec fn by_priority(s: Seq<SourceDataV>) -> Seq<SourceDataV> {
    ranked_from(s, 0)
}

proof fn lemma_of_rank_rank(s: Seq<SourceDataV>, r: nat)
    ensures
        forall|k: int| 0 <= k < of_rank(s, r).len() ==> rank(#[trigger] of_rank(s, r)[k].source_id) == r,
    decreases s.len(),
{
    if s.len() > 0 {
        lemma_of_rank_rank(s.drop_last(), r);
    }
}

proof fn lemma_ranked_from_sorted(s: Seq<SourceDataV>, r: nat)
    ensures
        forall|k: int| 0 <= k < ranked_from(s, r).len() ==> rank(#[trigger] ranked_from(s, r)[k].source_id) >= r,
        forall|i: int, j: int| 0 <= i < j < ranked_from(s, r).len() ==>
            rank(#[trigger] ranked_from(s, r)[i].source_id) <= rank(#[trigger] ranked_from(s, r)[j].source_id),
    decreases 8 - r,
{
    if r < 8 {
        lemma_of_rank_rank(s, r);
        lemma_ranked_from_sorted(s, r + 1);
        let a = of_rank(s, r);
        let b = ranked_from(s, r + 1);
        assert(ranked_from(s, r) == a + b);
        assert forall|k: int| 0 <= k < ranked_from(s, r).len() implies rank(#[trigger] ranked_from(s, r)[k].source_id) >= r by {
            if k < a.len() {
                assert(ranked_from(s, r)[k] == a[k]);
            } else {
                assert(ranked_from(s, r)[k] == b[k - a.len()]);
            }
        }
        assert forall|i: int, j: int| 0 <= i < j < ranked_from(s, r).len() implies
            rank(#[trigger] ranked_from(s, r)[i].source_id) <= rank(#[trigger] ranked_from(s, r)[j].source_id) by {
            if j < a.len() {
                assert(ranked_from(s, r)[i] == a[i]);
                assert(ranked_from(s, r)[j] == a[j]);
            } else if i < a.len() {
                assert(ranked_from(s, r)[i] == a[i]);
                assert(ranked_from(s, r)[j] == b[j - a.len()]);
            } else {
                assert(ranked_from(s, r)[i] == b[i - a.len()]);
                assert(ranked_from(s, r)[j] == b[j - a.len()]);
            }
        }
    }
}

/// The priority order ranks the more trusted sources first: along it the
/// trust rank never goes back.
pub proof fn lemma_by_priority_sorted(s: Seq<SourceDataV>)
    ensures
        forall|i: int, j: int| 0 <= i < j < by_priority(s).len() ==>
            rank(#[trigger] by_priority(s)[i].source_id) <= rank(#[trigger] by_priority(s)[j].source_id),
{
    lemma_ranked_from_sorted(s, 0);
}

/// Along the merged records the sources never go back in the priority
/// order: a more trusted source's record comes before a less trusted one's.
pub proof fn lemma_by_priority_follows_order(s: Seq<SourceDataV>)
    ensures
        forall|i: int, j: int| 0 <= i < j < by_priority(s).len() ==>
            position(priority_ids(), #[trigger] by_priority(s)[i].source_id, 0)
                <= position(priority_ids(), #[trigger] by_priority(s)[j].source_id, 0),
{
    lemma_by_priority_sorted(s);
    assert forall|i: int, j: int| 0 <= i < j < by_priority(s).len() implies
        position(priority_ids(), #[trigger] by_priority(s)[i].source_id, 0)
            <= position(priority_ids(), #[trigger] by_priority(s)[j].source_id, 0) by {
        lemma_rank_is_priority_position(by_priority(s)[i].source_id);
        lemma_rank_is_priority_position(by_priority(s)[j].source_id);
    }
}

/// The first value present, and where it is.
proof fn lemma_first_some_at<T>(c: Seq<Option<T>>)
    ensures
        first_some(c) is Some ==> exists|k: int| 0 <= k < c.len() && c[k] == first_some(c)
            && forall|j: int| 0 <= j < k ==> (#[trigger] c[j]) is None,
        first_some(c) is None ==> forall|j: int| 0 <= j < c.len() ==> (#[trigger] c[j]) is None,
    decreases c.len(),
{
    if c.len() > 0 {
        let d = c.drop_last();
        lemma_first_some_at(d);
        if first_some(d) is Some {
            let k = choose|k: int| 0 <= k < d.len() && d[k] == first_some(d) && forall|j: int| 0 <= j < k ==> (#[trigger] d[j]) is None;
            assert(c[k] == d[k]);
            assert forall|j: int| 0 <= j < k implies (#[trigger] c[j]) is None by {
                assert(c[j] == d[j]);
            }
        } else {
            assert forall|j: int| 0 <= j < c.len() - 1 implies (#[trigger] c[j]) is None by {
                assert(c[j] == d[j]);
            }
        }
    }
}

/// Where one source outranks every other answering source that has a value
/// for a field, the merged records give that source's value first.
proof fn lemma_trusted_value_first<T>(s: Seq<SourceDataV>, k: int, proj: spec_fn(SourceDataV) -> Option<T>)
    requires
        0 <= k < s.len(),
        proj(s[k]) is Some,
        forall|j: int| 0 <= j < s.len() && j != k && (#[trigger] proj(s[j])) is Some
            ==> position(priority_ids(), s[k].source_id, 0) < position(priority_ids(), s[j].source_id, 0),
    ensures
        first_some(by_priority(s).map_values(proj)) == proj(s[k]),
{
    broadcast use vstd::seq_lib::group_to_multiset_ensures;
    let t = by_priority(s);
    let c = t.map_values(proj);
    let x = s[k];
    lemma_by_priority_rearranges(s);
    lemma_by_priority_follows_order(s);
    assert(s.contains(x));
    assert(s.to_multiset().count(x) > 0);
    assert(t.to_multiset().count(x) > 0);
    assert(t.contains(x));
    let kx = choose|i: int| 0 <= i < t.len() && t[i] == x;
    assert(c[kx] == proj(x));
    lemma_first_some_at(c);
    if first_some(c) is None {
        assert(c[kx] is None);
    }
    let kk = choose|i: int| 0 <= i < c.len() && c[i] == first_some(c) && forall|j: int| 0 <= j < i ==> (#[trigger] c[j]) is None;
    if kk < kx {
        assert(c[kk] == proj(t[kk]));
        assert(t.contains(t[kk]));
        assert(t.to_multiset().count(t[kk]) > 0);
        assert(s.to_multiset().count(t[kk]) > 0);
        assert(s.contains(t[kk]));
        let j = choose|j: int| 0 <= j < s.len() && s[j] == t[kk];
        if j != k {
            assert(proj(s[j]) is Some);
            assert(position(priority_ids(), t[kk].source_id, 0) <= position(priority_ids(), t[kx].source_id, 0));
        }
    } else if kk > kx {
        assert(c[kx] is None);
    }
}

/// A source that outranks every other answering source with a country gives
/// the merged country.
pub proof fn lemma_most_trusted_country_wins(s: Seq<SourceDataV>, k: int)
    requires
        0 <= k < s.len(),
        s[k].country is Some,
        forall|j: int| 0 <= j < s.len() && j != k && (#[trigger] s[j]).country is Some
            ==> position(priority_ids(), s[k].source_id, 0) < position(priority_ids(), s[j].source_id, 0),
    ensures
        merged_fields(by_priority(s)).country == s[k].country,
{
    let proj = |d: SourceDataV| d.country;
    lemma_trusted_value_first(s, k, proj);
    lemma_picked_is_first(by_priority(s));
    assert(by_priority(s).map_values(proj) =~= by_priority(s).map_values(|d: SourceDataV| d.country));
}

/// A source that outranks every other answering source with a proxy flag
/// gives the merged proxy flag.
pub proof fn lemma_most_trusted_proxy_flag_wins(s: Seq<SourceDataV>, k: int)
    requires
        0 <= k < s.len(),
        s[k].is_proxy is Some,
        forall|j: int| 0 <= j < s.len() && j != k && (#[trigger] s[j]).is_proxy is Some
            ==> position(priority_ids(), s[k].source_id, 0) < position(priority_ids(), s[j].source_id, 0),
    ensures
        merged_fields(by_priority(s)).is_proxy == s[k].is_proxy,
{
    let proj = |d: SourceDataV| d.is_proxy;
    lemma_trusted_value_first(s, k, proj);
    lemma_picked_is_first(by_priority(s));
    assert(by_priority(s).map_values(proj) =~= by_priority(s).map_values(|d: SourceDataV| d.is_proxy));
}

proof fn lemma_ranked_from_push(s: Seq<SourceDataV>, x: SourceDataV, r: nat)
    ensures
        ranked_from(s.push(x), r).to_multiset() == (if r < 8 && rank(x.source_id) >= r {
            ranked_from(s, r).to_multiset().insert(x)
        } else {
            ranked_from(s, r).to_multiset()
        }),
    decreases 8 - r,
{
    broadcast use vstd::seq_lib::group_to_multiset_ensures, vstd::seq_lib::lemma_multiset_commutative,
        vstd::multiset::group_multiset_axioms;
    if r < 8 {
        lemma_ranked_from_push(s, x, r + 1);
        let t = s.push(x);
        assert(t.drop_last() == s);
        let a = of_rank(s, r);
        let b = ranked_from(s, r + 1);
        assert((a + b).to_multiset() =~= a.to_multiset().add(b.to_multiset()));
        if rank(x.source_id) == r {
            assert(of_rank(t, r) == a.push(x));
            assert((a.push(x) + ranked_from(t, r + 1)).to_multiset()
                =~= a.push(x).to_multiset().add(ranked_from(t, r + 1).to_multiset()));
        } else {
            assert(of_rank(t, r) == a);
            assert((a + ranked_from(t, r + 1)).to_multiset()
                =~= a.to_multiset().add(ranked_from(t, r + 1).to_multiset()));
        }
        assert(ranked_from(t, r).to_multiset() =~= (if rank(x.source_id) >= r {
            ranked_from(s, r).to_multiset().insert(x)
        } else {
            ranked_from(s, r).to_multiset()
        }));
    }
}

/// The priority order only rearranges the records: it holds each record as
/// often as the answers did.
pub proof fn lemma_by_priority_rearranges(s: Seq<SourceDataV>)
    ensures
        by_priority(s).to_multiset() == s.to_multiset(),
        by_priority(s).len() == s.len(),
    decreases s.len(),
{
    broadcast use vstd::seq_lib::group_to_multiset_ensures, vstd::multiset::group_multiset_axioms;
    if s.len() == 0 {
        assert(by_priority(s).to_multiset() =~= s.to_multiset()) by {
            lemma_ranked_from_empty(s, 0);
        }
    } else {
        let p = s.drop_last();
        lemma_by_priority_rearranges(p);
        lemma_ranked_from_push(p, s.last(), 0);
        assert(p.push(s.last()) == s);
    }
    assert(by_priority(s).to_multiset().len() == by_priority(s).len());
    assert(s.to_multiset().len() == s.len());
}

proof fn lemma_ranked_from_empty(s: Seq<SourceDataV>, r: nat)
    requires
        s.len() == 0,
    ensures
        ranked_from(s, r).len() == 0,
    decreases 8 - r,
{
    if r < 8 {
        lemma_ranked_from_empty(s, r + 1);
    }
}

fn rank_of(id: &str) -> (r: usize)
    ensures
        r == rank(id@),
{
    let c = chars_of(id);
    let c = c.as_slice();
    if is_text(c, "ipinfo") {
        0
    } else if is_text(c, "ipsb") {
        1
    } else if is_text(c, "netcoffee") {
        2
    } else if is_text(c, "ippure") {
        3
    } else if is_text(c, "ipapi") {
        4
    } else if is_text(c, "ipqs") {
        5
    } else if is_text(c, "abuseipdb") {
        6
    } else {
        7
    }
}

/// Copies of the records, stably sorted by trust rank.
fn sort_by_priority(ok: &Vec<SourceData>) -> (out: Vec<SourceData>)
    ensures
        views(out@) == by_priority(views(ok@)),
{
    let ghost s = views(ok@);
    let mut out: Vec<SourceData> = Vec::new();
    let mut r: usize = 0;
    while r < 8
        invariant
            r <= 8,
            s == views(ok@),
            views(out@) + ranked_from(s, r as nat) == by_priority(s),
        decreases 8 - r,
    {
        let ghost before = views(out@);
        let mut i: usize = 0;
        while i < ok.len()
            invariant
                i <= ok@.len(),
                r < 8,
                s == views(ok@),
                views(out@) == before + of_rank(s.take(i as int), r as nat),
            decreases ok.len() - i,
        {
            assert(s.take(i + 1).drop_last() =~= s.take(i as int));
            assert(s.take(i + 1).last() == ok@[i as int]@);
            if rank_of(ok[i].source_id.as_str()) == r {
                let d = ok[i].copy();
                let ghost prev = out@;
                out.push(d);
                assert(out@ == prev.push(d));
                assert(views(out@) =~= views(prev).push(d@));
                assert(views(out@) =~= before + of_rank(s.take(i + 1), r as nat));
            } else {
                assert(views(out@) =~= before + of_rank(s.take(i + 1), r as nat));
            }
            i += 1;
        }
        assert(s.take(ok@.len() as int) =~= s);
        assert(views(out@) + ranked_from(s, (r + 1) as nat) =~= before + ranked_from(s, r as nat));
        r += 1;
    }
    assert(views(out@) =~= views(out@) + ranked_from(s, 8));
    out
}

// ───────────────────────── majority vote ─────────────────────────

/// Number of records whose `is_datacenter` is `Some(b)`.
pub open spec fn count_flag(s: Seq<SourceDataV>, b: bool) -> nat
    decreases s.len(),
{
    if s.len() == 0 {
        0
    } else {
        count_flag(s.drop_last(), b) + (if s.last().is_datacenter == Some(b) { 1nat } else { 0nat })
    }
}

/// Majority vote on `is_datacenter`: the value more records report; `None`
/// on a tie or where no record says.
pub open spec fn majority(s: Seq<SourceDataV>) -> Option<bool> {
    let t = count_flag(s, true);
    let f = count_flag(s, false);
    if t > f {
        Some(true)
    } else if f > t {
        Some(false)
    } else {
        None
    }
}

proof fn lemma_count_bound(s: Seq<SourceDataV>, b: bool)
    ensures
        count_flag(s, b) <= s.len(),
    decreases s.len(),
{
    if s.len() > 0 {
        lemma_count_bound(s.drop_last(), b);
    }
}

fn majority_of(ok: &Vec<SourceData>) -> (r: Option<bool>)
    ensures
        r == majority(views(ok@)),
{
    let ghost s = views(ok@);
    let mut t: usize = 0;
    let mut f: usize = 0;
    let mut i: usize = 0;
    while i < ok.len()
        invariant
            i <= ok@.len(),
            s == views(ok@),
            t == count_flag(s.take(i as int), true),
            f == count_flag(s.take(i as int), false),
        decreases ok.len() - i,
    {
        assert(s.take(i + 1).drop_last() =~= s.take(i as int));
        proof {
            lemma_count_bound(s.take(i as int), true);
            lemma_count_bound(s.take(i as int), false);
        }
        match ok[i].is_datacenter {
            Some(true) => t += 1,
            Some(false) => f += 1,
            None => {},
        }
        i += 1;
    }
    assert(s.take(ok@.len() as int) =~= s);
    if t > f {
        Some(true)
    } else if f > t {
        Some(false)
    } else {
        None
    }
}

// ───────────────────────── merge ─────────────────────────

/// The records of the sources that answered, in the given order.
pub open spec fn answered(rs: Seq<(String, Result<SourceData, SourceError>)>) -> Seq<SourceDataV>
    decreases rs.len(),
{
    if rs.len() == 0 {
        Seq::empty()
    } else {
        match rs.last().1 {
            Ok(d) => answered(rs.drop_last()).push(d@),
            Err(_) => answered(rs.drop_last()),
        }
    }
}

/// Status line of one source's outcome.
pub open spec fn status_of(x: (String, Result<SourceData, SourceError>)) -> SourceStatusV {
    match x.1 {
        Ok(_) => SourceStatusV { id: x.0@, ok: true, error: None },
        Err(e) => SourceStatusV { id: x.0@, ok: false, error: Some(e.message_text()) },
    }
}

proof fn lemma_answered_concat(
    x: Seq<(String, Result<SourceData, SourceError>)>,
    y: Seq<(String, Result<SourceData, SourceError>)>,
)
    ensures
        answered(x + y) == answered(x) + answered(y),
    decreases y.len(),
{
    if y.len() == 0 {
        assert(x + y =~= x);
        assert(answered(x) + answered(y) =~= answered(x));
    } else {
        lemma_answered_concat(x, y.drop_last());
        assert((x + y).drop_last() =~= x + y.drop_last());
        match y.last().1 {
            Ok(d) => {
                assert(answered(x) + answered(y.drop_last()).push(d@) =~= (answered(x) + answered(y.drop_last())).push(d@));
            },
            Err(_) => {},
        }
    }
}

/// A source that fails changes nothing of the report but its own status
/// line: the answering records, and so the merged fields and the raw records
/// of `merge`, are those of the same run without it.
pub proof fn lemma_failed_source_ignored(
    before: Seq<(String, Result<SourceData, SourceError>)>,
    after: Seq<(String, Result<SourceData, SourceError>)>,
    id: String,
    e: SourceError,
)
    ensures
        answered(before + seq![(id, Err(e))] + after) == answered(before + after),
        merged_fields(by_priority(answered(before + seq![(id, Err(e))] + after)))
            == merged_fields(by_priority(answered(before + after))),
{
    let failed: Seq<(String, Result<SourceData, SourceError>)> = seq![(id, Err(e))];
    lemma_answered_concat(before + failed, after);
    lemma_answered_concat(before, failed);
    lemma_answered_concat(before, after);
    assert(failed.drop_last() =~= Seq::<(String, Result<SourceData, SourceError>)>::empty());
    assert(answered(failed.drop_last()) =~= Seq::<SourceDataV>::empty());
    assert(failed.last() == (id, Err::<SourceData, SourceError>(e)));
    assert(answered(failed) =~= Seq::<SourceDataV>::empty());
    assert(answered(before) + answered(failed) =~= answered(before));
}

/// The merged field values of records in priority order: first value present
/// for every field, majority vote for `is_datacenter`.
pub open spec fn merged_fields(s: Seq<SourceDataV>) -> SourceDataV {
    SourceDataV { is_datacenter: majority(s), ..picked(s) }
}

/// The answering sources' records and every source's status, in order.
fn collect_outcomes(results: &Vec<(String, Result<SourceData, SourceError>)>) -> (r: (Vec<SourceData>, Vec<SourceStatus>))
    ensures
        views(r.0@) == answered(results@),
        status_views(r.1@) == results@.map_values(|x: (String, Result<SourceData, SourceError>)| status_of(x)),
{
    let ghost rs = results@;
    let mut ok: Vec<SourceData> = Vec::new();
    let mut statuses: Vec<SourceStatus> = Vec::new();
    let mut i: usize = 0;
    while i < results.len()
        invariant
            i <= rs.len(),
            rs == results@,
            views(ok@) == answered(rs.take(i as int)),
            status_views(statuses@) == rs.take(i as int).map_values(|x: (String, Result<SourceData, SourceError>)| status_of(x)),
        decreases results.len() - i,
    {
        assert(rs.take(i + 1).drop_last() =~= rs.take(i as int));
        let entry = &results[i];
        match &entry.1 {
            Ok(d) => {
                let st = SourceStatus { id: entry.0.clone(), ok: true, error: None };
                let ghost prev = statuses@;
                statuses.push(st);
                assert(status_views(statuses@) =~= status_views(prev).push(st@));
                let c = d.copy();
                let ghost prev_ok = ok@;
                ok.push(c);
                assert(views(ok@) =~= views(prev_ok).push(c@));
            },
            Err(e) => {
                let st = SourceStatus { id: entry.0.clone(), ok: false, error: Some(e.message()) };
                let ghost prev = statuses@;
                statuses.push(st);
                assert(status_views(statuses@) =~= status_views(prev).push(st@));
            },
        }
        assert(views(ok@) =~= answered(rs.take(i + 1)));
        assert(status_views(statuses@) =~= rs.take(i + 1).map_values(|x: (String, Result<SourceData, SourceError>)| status_of(x)));
        i += 1;
    }
    assert(rs.take(rs.len() as int) =~= rs);
    (ok, statuses)
}

/// A report on `ip` whose fields are picked from `sorted` in order.
fn fill_report(ip: &str, sorted: &Vec<SourceData>) -> (m: MergedReport)
    ensures
        opt_text(m.ip) == Some(ip@),
        m.fields() == picked(views(sorted@)),
{
    let ghost s = views(sorted@);
    let mut m = empty_report(ip);
    let mut j: usize = 0;
    while j < sorted.len()
        invariant
            j <= sorted@.len(),
            s == views(sorted@),
            m.fields() == picked(s.take(j as int)),
            opt_text(m.ip) == Some(ip@),
        decreases sorted.len() - j,
    {
        assert(s.take(j + 1).drop_last() =~= s.take(j as int));
        absorb(&mut m, &sorted[j]);
        j += 1;
    }
    assert(s.take(sorted@.len() as int) =~= s);
    m
}

/// Merges the outcomes of the sources (id and result, in the order they were
/// run) into one report on `ip`.
pub fn merge(ip: &str, results: Vec<(String, Result<SourceData, SourceError>)>) -> (m: MergedReport)
    ensures
        opt_text(m.ip) == Some(ip@),
        status_views(m.sources@) == results@.map_values(|x: (String, Result<SourceData, SourceError>)| status_of(x)),
        views(m.raw@) == by_priority(answered(results@)),
        m.fields() == merged_fields(by_priority(answered(results@))),
{
    let (ok, statuses) = collect_outcomes(&results);
    let sorted = sort_by_priority(&ok);
    let mut m = fill_report(ip, &sorted);
    m.is_datacenter = majority_of(&sorted);
    m.sources = statuses;
    m.raw = sorted;
    m
}

} // verus!
