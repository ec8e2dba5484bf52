use ipano::aggregate::MergedReport;
use ipano::model::SourceData;
use ipano::render::raw::render;

#[test]
fn raw_lists_phase2_fields() {
    let mut vt = SourceData::new("vt");
    vt.blacklist_malicious = Some(2);
    let mut cf = SourceData::new("cf");
    cf.human_traffic_pct = Some("78.5".to_string());
    cf.bot_traffic_pct = Some("21.5".to_string());
    let mut ipreg = SourceData::new("ipreg");
    ipreg.is_cloud = Some(true);
    ipreg.threat_level = Some("high".into());
    let report = MergedReport { raw: vec![vt, cf, ipreg], ..Default::default() };
    let s = render(&report);
    assert!(s.contains("VT恶意"));
    assert!(s.contains("2 [vt]"));
    assert!(s.contains("人类流量"));
    assert!(s.contains("78.5 [cf]"));
    assert!(s.contains("是否云"));
    assert!(s.contains("Yes [ipreg]"));
    assert!(s.contains("威胁等级"));
    assert!(s.contains("high [ipreg]"));
}

#[test]
fn raw_lists_per_source() {
    let mut a = SourceData::new("ipapiis"); a.is_proxy = Some(true); a.asn_abuse_score = Some("0.0131".to_string());
    let mut b = SourceData::new("ip2loc"); b.is_proxy = Some(false); b.usage_type = Some("DCH".into());
    let report = MergedReport { raw: vec![a, b], ..Default::default() };
    let s = render(&report);
    assert!(s.contains("是否代理"));
    assert!(s.contains("Yes [ipapiis]"));
    assert!(s.contains("No [ip2loc]"));
    assert!(s.contains("0.0131 [ipapiis]"));
    assert!(s.contains("DCH [ip2loc]"));
}

#[test]
fn raw_lists_added_quality_fields() {
    let mut a = SourceData::new("ipapiis");
    a.trust_score = Some(72);
    a.fraud_score = Some(15);
    a.abuseipdb_score = Some(3);
    a.is_tor = Some(false);
    a.is_hosting = Some(true);
    a.is_crawler = Some(false);
    a.is_mobile = Some(false);
    a.is_residential = Some(false);
    a.is_abuser = Some(true);
    a.is_bogon = Some(false);
    a.browser_dist = Some("Chrome 78% 其他 22%".into());
    a.os_dist = Some("Windows 93% 其他 7%".into());
    a.blacklist_undetected = Some(91);
    let report = MergedReport { raw: vec![a], ..Default::default() };
    let s = render(&report);
    assert!(s.contains("信任分"));
    assert!(s.contains("72 [ipapiis]"));
    assert!(s.contains("欺诈分"));
    assert!(s.contains("AbuseIPDB分"));
    assert!(s.contains("是否Tor"));
    assert!(s.contains("是否托管"));
    assert!(s.contains("是否爬虫"));
    assert!(s.contains("是否移动"));
    assert!(s.contains("是否住宅"));
    assert!(s.contains("是否滥用者"));
    assert!(s.contains("Yes [ipapiis]"));
    assert!(s.contains("是否Bogon"));
    assert!(s.contains("浏览器分布"));
    assert!(s.contains("Chrome 78% 其他 22% [ipapiis]"));
    assert!(s.contains("系统分布"));
    assert!(s.contains("VT未检出"));
    assert!(s.contains("91 [ipapiis]"));
}
