use ipano::aggregate::merge;
use ipano::json::Json;
use ipano::model::{AiVerdict, SourceData};
use ipano::net::Ipv4Addr;
use ipano::probe::dnsbl::DnsblResult;
use ipano::probe::mail::{MailResult, PortStatus};
use ipano::probe::route::{Carrier, City, Grade, Hop, LineType, RouteResult};
use ipano::probe::{ProbeResult, ProbeStatus, UnlockType};
use ipano::render::json::{report_document, to_json};

#[test]
fn json_contains_ip_and_asn() {
    let mut d = SourceData::new("ipsb");
    d.asn = Some(13335);
    let report = merge("1.1.1.1", vec![("ipsb".to_string(), Ok(d))]);
    let s = to_json(&report, &[], &[], &[], &[]);
    assert!(s.contains("\"ip\""));
    assert!(s.contains("13335"));
}

#[test]
fn json_contains_risk_fields() {
    let mut d = SourceData::new("netcoffee");
    d.trust_score = Some(41);
    d.is_vpn = Some(false);
    d.is_tor = Some(true);
    d.ai_verdict = Some(AiVerdict { label: "Suspicious".into(), confidence: 60, reasoning: "x".into() });
    let report = merge("1.1.1.1", vec![("netcoffee".to_string(), Ok(d))]);
    let s = to_json(&report, &[], &[], &[], &[]);
    assert!(s.contains("trust_score"));
    assert!(s.contains("\"is_tor\""));
    assert!(s.contains("ai_verdict"));
    assert!(s.contains("Suspicious"));
}

#[test]
fn json_contains_phase2_fields() {
    let mut d = SourceData::new("vt");
    d.blacklist_malicious = Some(2);
    d.blacklist_harmless = Some(80);
    let mut cf = SourceData::new("cf");
    cf.human_traffic_pct = Some("78.5".into());
    let report = merge("1.1.1.1", vec![("vt".into(), Ok(d)), ("cf".into(), Ok(cf))]);
    let s = to_json(&report, &[], &[], &[], &[]);
    assert!(s.contains("blacklist_malicious"));
    assert!(s.contains("human_traffic_pct"));
    assert!(s.contains("threat_level"));
    assert!(s.contains("is_cloud"));
}

#[test]
fn json_contains_quality_fields() {
    let mut d = SourceData::new("ipapiis");
    d.usage_type = Some("DCH".into());
    d.company_type = Some("hosting".into());
    d.asn_abuse_score = Some("0.0131".into());
    d.company_abuse_score = Some("0.015".into());
    d.is_datacenter = Some(true);
    let report = merge("1.1.1.1", vec![("ipapiis".to_string(), Ok(d))]);
    let s = to_json(&report, &[], &[], &[], &[]);
    assert!(s.contains("usage_type"));
    assert!(s.contains("asn_abuse_score"));
    assert!(s.contains("company_abuse_score"));
    assert!(s.contains("is_datacenter"));
}

#[test]
fn json_numbers_tags_and_results() {
    let mut d = SourceData::new("ipsb");
    d.asn = Some(13335);
    d.lat = Some("39.9042".into());
    d.asn_abuse_score = Some("0.0131".into());
    d.trust_score = Some(-3);
    let report = merge("1.1.1.1", vec![("ipsb".to_string(), Ok(d))]);
    let probes = vec![ProbeResult {
        name: "Netflix".into(),
        status: ProbeStatus::Unlocked,
        region: Some("us".into()),
        unlock_type: UnlockType::Native,
        info: None,
    }];
    let mail = vec![MailResult {
        provider: "Gmail".into(),
        host: "smtp.gmail.com".into(),
        ports: vec![PortStatus { port: 465, open: true }],
    }];
    let routes = vec![RouteResult {
        carrier: Carrier::Telecom,
        city: City::Beijing,
        target_name: "Beijing Telecom".into(),
        target: Ipv4Addr::new(219, 141, 136, 12),
        hops: vec![Hop {
            ttl: 1,
            addr: Some(Ipv4Addr::new(10, 0, 0, 1)),
            rtt_us: Some(12345),
            asn: None,
            as_org: None,
            country: None,
            city: None,
        }],
        line: LineType::Cn2gia,
        grade: Grade::Boutique,
        entry: LineType::Cn2gia,
        degraded: None,
    }];
    let dnsbl = vec![DnsblResult { list: "zen.spamhaus.org".into(), listed: false }];
    let s = to_json(&report, &probes, &mail, &routes, &dnsbl);
    assert!(s.starts_with("{\n  \""));
    assert!(s.contains("\"asn\": 13335"));
    assert!(s.contains("\"lat\": 39.9042"));
    assert!(s.contains("\"asn_abuse_score\": 0.0131"));
    assert!(s.contains("\"trust_score\": -3"));
    assert!(s.contains("\"ip\": \"1.1.1.1\""));
    assert!(s.contains("\"status\": \"unlocked\""));
    assert!(s.contains("\"unlock_type\": \"native\""));
    assert!(s.contains("\"port\": 465"));
    assert!(s.contains("\"carrier\": \"telecom\""));
    assert!(s.contains("\"line\": \"cn2gia\""));
    assert!(s.contains("\"grade\": \"boutique\""));
    assert!(s.contains("\"target\": \"219.141.136.12\""));
    assert!(s.contains("\"rtt_ms\": 12.345"));
    assert!(s.contains("\"addr\": \"10.0.0.1\""));
    assert!(s.contains("\"list\": \"zen.spamhaus.org\""));
    assert!(s.contains("\"is_vpn\": null"));
    // object keys come out sorted
    assert!(s.find("\"abuseipdb_score\"").unwrap() < s.find("\"ai_verdict\"").unwrap());
    match report_document(&report, &probes, &mail, &routes, &dnsbl) {
        Json::Obj(es) => {
            assert_eq!(es.len(), 52);
            assert_eq!(es[0].0, "ip");
            assert_eq!(es[51].0, "dnsbl");
        }
        _ => panic!("the document is an object"),
    }
}
