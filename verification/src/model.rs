//! Data model shared by the sources and the report: one source's findings,
//! the source error kinds, and their plain (view) forms.

use vstd::prelude::*;
use vstd::string::*;
use crate::probe::copy_opt;
use crate::text::{owned, push_text};

verus! {

/// Kind of IP, as the sources report it.
#[derive(Debug, Clone, Copy, PartialEq, Eq, Structural)]
pub enum IpType {
    Native,
    Broadcast,
    Hosting,
    Residential,
    Mobile,
    Business,
    Unknown,
}

impl IpType {
    pub open spec fn name_text(self) -> Seq<char> {
        match self {
            IpType::Native => "Native"@,
            IpType::Broadcast => "Broadcast"@,
            IpType::Hosting => "Hosting"@,
            IpType::Residential => "Residential"@,
            IpType::Mobile => "Mobile"@,
            IpType::Business => "Business"@,
            IpType::Unknown => "Unknown"@,
        }
    }

    /// The variant's name (as `Debug` prints it).
    pub fn name(self) -> (r: &'static str)
        ensures
            r@ == self.name_text(),
    {
        match self {
            IpType::Native => "Native",
            IpType::Broadcast => "Broadcast",
            IpType::Hosting => "Hosting",
            IpType::Residential => "Residential",
            IpType::Mobile => "Mobile",
            IpType::Business => "Business",
            IpType::Unknown => "Unknown",
        }
    }

    /// Lower-case tag used in machine-readable output.
    pub open spec fn tag_text(self) -> Seq<char> {
        match self {
            IpType::Native => "native"@,
            IpType::Broadcast => "broadcast"@,
            IpType::Hosting => "hosting"@,
            IpType::Residential => "residential"@,
            IpType::Mobile => "mobile"@,
            IpType::Business => "business"@,
            IpType::Unknown => "unknown"@,
        }
    }

    pub fn tag(self) -> (r: &'static str)
        ensures
            r@ == self.tag_text(),
    {
        match self {
            IpType::Native => "native",
            IpType::Broadcast => "broadcast",
            IpType::Hosting => "hosting",
            IpType::Residential => "residential",
            IpType::Mobile => "mobile",
            IpType::Business => "business",
            IpType::Unknown => "unknown",
        }
    }
}

/// An AI-generated verdict on the address.
#[derive(Debug, Clone)]
pub struct AiVerdict {
    pub label: String,
    pub confidence: i64,
    pub reasoning: String,
}

pub ghost struct AiVerdictV {
    pub label: Seq<char>,
    pub confidence: i64,
    pub reasoning: Seq<char>,
}

impl View for AiVerdict {
    type V = AiVerdictV;

    open spec fn view(&self) -> AiVerdictV {
        AiVerdictV { label: self.label@, confidence: self.confidence, reasoning: self.reasoning@ }
    }
}

impl AiVerdict {
    pub fn copy(&self) -> (r: AiVerdict)
        ensures
            r@ == self@,
    {
        AiVerdict { label: self.label.clone(), confidence: self.confidence, reasoning: self.reasoning.clone() }
    }
}

/// An optional text as an optional char sequence.
pub open spec fn opt_text(o: Option<String>) -> Option<Seq<char>> {
    match o {
        Some(s) => Some(s@),
        None => None,
    }
}

/// What one source found about the address. Every field but `source_id` is
/// optional; decimal quantities (coordinates, abuse scores, traffic shares)
/// are kept as the decimal text the source gave.
#[derive(Debug, Clone)]
pub struct SourceData {
    pub source_id: String,
    pub asn: Option<u32>,
    pub as_org: Option<String>,
    pub isp: Option<String>,
    pub org: Option<String>,
    pub country: Option<String>,
    pub region: Option<String>,
    pub city: Option<String>,
    pub lat: Option<String>,
    pub lon: Option<String>,
    pub timezone: Option<String>,
    pub rdns: Option<String>,
    pub ip_type: Option<IpType>,
    pub is_proxy: Option<bool>,
    pub is_vpn: Option<bool>,
    pub is_tor: Option<bool>,
    pub is_hosting: Option<bool>,
    pub trust_score: Option<i64>,
    pub risk_score: Option<i64>,
    pub abuser_score: Option<String>,
    pub rep_threat: Option<i64>,
    pub ai_verdict: Option<AiVerdict>,
    pub is_abuser: Option<bool>,
    pub is_crawler: Option<bool>,
    pub is_mobile: Option<bool>,
    pub is_residential: Option<bool>,
    pub fraud_score: Option<i64>,
    pub abuseipdb_score: Option<i64>,
    pub ipqs_score: Option<i64>,
    pub usage_type: Option<String>,
    pub company_type: Option<String>,
    pub asn_abuse_score: Option<String>,
    pub company_abuse_score: Option<String>,
    pub is_datacenter: Option<bool>,
    pub threat_level: Option<String>,
    pub human_traffic_pct: Option<String>,
    pub bot_traffic_pct: Option<String>,
    pub browser_dist: Option<String>,
    pub device_dist: Option<String>,
    pub os_dist: Option<String>,
    pub is_cloud: Option<bool>,
    pub is_relay: Option<bool>,
    pub is_anonymous: Option<bool>,
    pub is_bogon: Option<bool>,
    pub blacklist_harmless: Option<u32>,
    pub blacklist_malicious: Option<u32>,
    pub blacklist_suspicious: Option<u32>,
    pub blacklist_undetected: Option<u32>,
}

/// Plain form of `SourceData`.
pub ghost struct SourceDataV {
    pub source_id: Seq<char>,
    pub asn: Option<u32>,
    pub as_org: Option<Seq<char>>,
    pub isp: Option<Seq<char>>,
    pub org: Option<Seq<char>>,
    pub country: Option<Seq<char>>,
    pub region: Option<Seq<char>>,
    pub city: Option<Seq<char>>,
    pub lat: Option<Seq<char>>,
    pub lon: Option<Seq<char>>,
    pub timezone: Option<Seq<char>>,
    pub rdns: Option<Seq<char>>,
    pub ip_type: Option<IpType>,
    pub is_proxy: Option<bool>,
    pub is_vpn: Option<bool>,
    pub is_tor: Option<bool>,
    pub is_hosting: Option<bool>,
    pub trust_score: Option<i64>,
    pub risk_score: Option<i64>,
    pub abuser_score: Option<Seq<char>>,
    pub rep_threat: Option<i64>,
    pub ai_verdict: Option<AiVerdictV>,
    pub is_abuser: Option<bool>,
    pub is_crawler: Option<bool>,
    pub is_mobile: Option<bool>,
    pub is_residential: Option<bool>,
    pub fraud_score: Option<i64>,
    pub abuseipdb_score: Option<i64>,
    pub ipqs_score: Option<i64>,
    pub usage_type: Option<Seq<char>>,
    pub company_type: Option<Seq<char>>,
    pub asn_abuse_score: Option<Seq<char>>,
    pub company_abuse_score: Option<Seq<char>>,
    pub is_datacenter: Option<bool>,
    pub threat_level: Option<Seq<char>>,
    pub human_traffic_pct: Option<Seq<char>>,
    pub bot_traffic_pct: Option<Seq<char>>,
    pub browser_dist: Option<Seq<char>>,
    pub device_dist: Option<Seq<char>>,
    pub os_dist: Option<Seq<char>>,
    pub is_cloud: Option<bool>,
    pub is_relay: Option<bool>,
    pub is_anonymous: Option<bool>,
    pub is_bogon: Option<bool>,
    pub blacklist_harmless: Option<u32>,
    pub blacklist_malicious: Option<u32>,
    pub blacklist_suspicious: Option<u32>,
    pub blacklist_undetected: Option<u32>,
}

impl View for SourceData {
    type V = SourceDataV;

    open spec fn view(&self) -> SourceDataV {
        SourceDataV {
            source_id: self.source_id@,
            asn: self.asn,
            as_org: opt_text(self.as_org),
            isp: opt_text(self.isp),
            org: opt_text(self.org),
            country: opt_text(self.country),
            region: opt_text(self.region),
            city: opt_text(self.city),
            lat: opt_text(self.lat),
            lon: opt_text(self.lon),
            timezone: opt_text(self.timezone),
            rdns: opt_text(self.rdns),
            ip_type: self.ip_type,
            is_proxy: self.is_proxy,
            is_vpn: self.is_vpn,
            is_tor: self.is_tor,
            is_hosting: self.is_hosting,
            trust_score: self.trust_score,
            risk_score: self.risk_score,
            abuser_score: opt_text(self.abuser_score),
            rep_threat: self.rep_threat,
            ai_verdict: match self.ai_verdict { Some(v) => Some(v@), None => None },
            is_abuser: self.is_abuser,
            is_crawler: self.is_crawler,
            is_mobile: self.is_mobile,
            is_residential: self.is_residential,
            fraud_score: self.fraud_score,
            abuseipdb_score: self.abuseipdb_score,
            ipqs_score: self.ipqs_score,
            usage_type: opt_text(self.usage_type),
            company_type: opt_text(self.company_type),
            asn_abuse_score: opt_text(self.asn_abuse_score),
            company_abuse_score: opt_text(self.company_abuse_score),
            is_datacenter: self.is_datacenter,
            threat_level: opt_text(self.threat_level),
            human_traffic_pct: opt_text(self.human_traffic_pct),
            bot_traffic_pct: opt_text(self.bot_traffic_pct),
            browser_dist: opt_text(self.browser_dist),
            device_dist: opt_text(self.device_dist),
            os_dist: opt_text(self.os_dist),
            is_cloud: self.is_cloud,
            is_relay: self.is_relay,
            is_anonymous: self.is_anonymous,
            is_bogon: self.is_bogon,
            blacklist_harmless: self.blacklist_harmless,
            blacklist_malicious: self.blacklist_malicious,
            blacklist_suspicious: self.blacklist_suspicious,
            blacklist_undetected: self.blacklist_undetected,
        }
    }
}

/// A record naming the source and holding nothing else.
pub open spec fn blank(id: Seq<char>) -> SourceDataV {
    SourceDataV {
        source_id: id,
        asn: None,
        as_org: None,
        isp: None,
        org: None,
        country: None,
        region: None,
        city: None,
        lat: None,
        lon: None,
        timezone: None,
        rdns: None,
        ip_type: None,
        is_proxy: None,
        is_vpn: None,
        is_tor: None,
        is_hosting: None,
        trust_score: None,
        risk_score: None,
        abuser_score: None,
        rep_threat: None,
        ai_verdict: None,
        is_abuser: None,
        is_crawler: None,
        is_mobile: None,
        is_residential: None,
        fraud_score: None,
        abuseipdb_score: None,
        ipqs_score: None,
        usage_type: None,
        company_type: None,
        asn_abuse_score: None,
        company_abuse_score: None,
        is_datacenter: None,
        threat_level: None,
        human_traffic_pct: None,
        bot_traffic_pct: None,
        browser_dist: None,
        device_dist: None,
        os_dist: None,
        is_cloud: None,
        is_relay: None,
        is_anonymous: None,
        is_bogon: None,
        blacklist_harmless: None,
        blacklist_malicious: None,
        blacklist_suspicious: None,
        blacklist_undetected: None,
    }
}

impl SourceData {
    /// An empty record for source `source_id`.
    pub fn new(source_id: &str) -> (d: SourceData)
        ensures
            d@ == blank(source_id@),
    {
        SourceData {
            source_id: owned(source_id),
            asn: None,
            as_org: None,
            isp: None,
            org: None,
            country: None,
            region: None,
            city: None,
            lat: None,
            lon: None,
            timezone: None,
            rdns: None,
            ip_type: None,
            is_proxy: None,
            is_vpn: None,
            is_tor: None,
            is_hosting: None,
            trust_score: None,
            risk_score: None,
            abuser_score: None,
            rep_threat: None,
            ai_verdict: None,
            is_abuser: None,
            is_crawler: None,
            is_mobile: None,
            is_residential: None,
            fraud_score: None,
            abuseipdb_score: None,
            ipqs_score: None,
            usage_type: None,
            company_type: None,
            asn_abuse_score: None,
            company_abuse_score: None,
            is_datacenter: None,
            threat_level: None,
            human_traffic_pct: None,
            bot_traffic_pct: None,
            browser_dist: None,
            device_dist: None,
            os_dist: None,
            is_cloud: None,
            is_relay: None,
            is_anonymous: None,
            is_bogon: None,
            blacklist_harmless: None,
            blacklist_malicious: None,
            blacklist_suspicious: None,
            blacklist_undetected: None,
        }
    }

    /// A field-by-field copy.
    pub fn copy(&self) -> (r: SourceData)
        ensures
            r@ == self@,
    {
        SourceData {
            source_id: self.source_id.clone(),
            asn: self.asn,
            as_org: copy_opt(&self.as_org),
            isp: copy_opt(&self.isp),
            org: copy_opt(&self.org),
            country: copy_opt(&self.country),
            region: copy_opt(&self.region),
            city: copy_opt(&self.city),
            lat: copy_opt(&self.lat),
            lon: copy_opt(&self.lon),
            timezone: copy_opt(&self.timezone),
            rdns: copy_opt(&self.rdns),
            ip_type: self.ip_type,
            is_proxy: self.is_proxy,
            is_vpn: self.is_vpn,
            is_tor: self.is_tor,
            is_hosting: self.is_hosting,
            trust_score: self.trust_score,
            risk_score: self.risk_score,
            abuser_score: copy_opt(&self.abuser_score),
            rep_threat: self.rep_threat,
            ai_verdict: match &self.ai_verdict { Some(v) => Some(v.copy()), None => None },
            is_abuser: self.is_abuser,
            is_crawler: self.is_crawler,
            is_mobile: self.is_mobile,
            is_residential: self.is_residential,
            fraud_score: self.fraud_score,
            abuseipdb_score: self.abuseipdb_score,
            ipqs_score: self.ipqs_score,
            usage_type: copy_opt(&self.usage_type),
            company_type: copy_opt(&self.company_type),
            asn_abuse_score: copy_opt(&self.asn_abuse_score),
            company_abuse_score: copy_opt(&self.company_abuse_score),
            is_datacenter: self.is_datacenter,
            threat_level: copy_opt(&self.threat_level),
            human_traffic_pct: copy_opt(&self.human_traffic_pct),
            bot_traffic_pct: copy_opt(&self.bot_traffic_pct),
            browser_dist: copy_opt(&self.browser_dist),
            device_dist: copy_opt(&self.device_dist),
            os_dist: copy_opt(&self.os_dist),
            is_cloud: self.is_cloud,
            is_relay: self.is_relay,
            is_anonymous: self.is_anonymous,
            is_bogon: self.is_bogon,
            blacklist_harmless: self.blacklist_harmless,
            blacklist_malicious: self.blacklist_malicious,
            blacklist_suspicious: self.blacklist_suspicious,
            blacklist_undetected: self.blacklist_undetected,
        }
    }
}

/// Why a source produced no data.
#[derive(Debug)]
pub enum SourceError {
    Unavailable(String),
    RateLimited,
    NeedsKey(String),
    ChallengeFailed,
    Timeout,
    Parse(String),
}

/// Plain form of `SourceError`.
pub ghost enum SourceErrorV {
    Unavailable(Seq<char>),
    RateLimited,
    NeedsKey(Seq<char>),
    ChallengeFailed,
    Timeout,
    Parse(Seq<char>),
}

impl View for SourceError {
    type V = SourceErrorV;

    open spec fn view(&self) -> SourceErrorV {
        match self {
            SourceError::Unavailable(s) => SourceErrorV::Unavailable(s@),
            SourceError::RateLimited => SourceErrorV::RateLimited,
            SourceError::NeedsKey(s) => SourceErrorV::NeedsKey(s@),
            SourceError::ChallengeFailed => SourceErrorV::ChallengeFailed,
            SourceError::Timeout => SourceErrorV::Timeout,
            SourceError::Parse(s) => SourceErrorV::Parse(s@),
        }
    }
}

impl SourceError {
    pub open spec fn message_text(self) -> Seq<char> {
        match self {
            SourceError::Unavailable(s) => "不可用: "@ + s@,
            SourceError::RateLimited => "触发限流"@,
            SourceError::NeedsKey(s) => "需要 key: "@ + s@,
            SourceError::ChallengeFailed => "反爬挑战失败"@,
            SourceError::Timeout => "超时"@,
            SourceError::Parse(s) => "解析失败: "@ + s@,
        }
    }

    /// Human-readable message (what `Display` shows).
    pub fn message(&self) -> (m: String)
        ensures
            m@ == self.message_text(),
    {
        match self {
            SourceError::Unavailable(s) => {
                let mut m = owned("不可用: ");
                push_text(&mut m, s.as_str());
                m
            }
            SourceError::RateLimited => owned("触发限流"),
            SourceError::NeedsKey(s) => {
                let mut m = owned("需要 key: ");
                push_text(&mut m, s.as_str());
                m
            }
            SourceError::ChallengeFailed => owned("反爬挑战失败"),
            SourceError::Timeout => owned("超时"),
            SourceError::Parse(s) => {
                let mut m = owned("解析失败: ");
                push_text(&mut m, s.as_str());
                m
            }
        }
    }
}

/// Plain form of a source's outcome.
pub open spec fn outcome(r: Result<SourceData, SourceError>) -> Result<SourceDataV, SourceErrorV> {
    match r {
        Ok(d) => Ok(d@),
        Err(e) => Err(e@),
    }
}

} // verus!
