use ipano::aggregate::merge;
use ipano::model::{AiVerdict, SourceData, SourceError};

#[test]
fn merge_picks_by_priority_and_records_status() {
    let ip = "1.1.1.1";
    let mut ipinfo = SourceData::new("ipinfo");
    ipinfo.city = Some("LA-ipinfo".into());
    let mut ipsb = SourceData::new("ipsb");
    ipsb.city = Some("LA-ipsb".into());
    ipsb.asn = Some(13335); // ipinfo 无 asn,应回落到 ipsb
    let results = vec![
        ("ipsb".to_string(), Ok(ipsb)),
        ("ipinfo".to_string(), Ok(ipinfo)),
        ("ipapi".to_string(), Err(ipano::model::SourceError::Timeout)),
    ];
    let m = merge(ip, results);
    // 优先级 ipinfo > ipsb > ipapi:city 取 ipinfo
    assert_eq!(m.city.as_deref(), Some("LA-ipinfo"));
    // asn ipinfo 缺,回落 ipsb
    assert_eq!(m.asn, Some(13335));
    // 状态:3 条,ipapi 失败
    assert_eq!(m.sources.len(), 3);
    let failed = m.sources.iter().find(|s| s.id == "ipapi").unwrap();
    assert!(!failed.ok);
}

#[test]
fn merge_datacenter_majority() {
    let ip = "1.1.1.1";
    let mk = |id: &str, dc: bool| { let mut d = SourceData::new(id); d.is_datacenter = Some(dc); d };
    let m = merge(ip, vec![
        ("bdc".into(), Ok(mk("bdc", true))),
        ("ipapiis".into(), Ok(mk("ipapiis", true))),
        ("ip2loc".into(), Ok(mk("ip2loc", false))),
    ]);
    assert_eq!(m.is_datacenter, Some(true)); // 2:1 多数
}

#[test]
fn merge_carries_risk_fields() {
    let ip = "1.1.1.1";
    let mut nc = SourceData::new("netcoffee");
    nc.trust_score = Some(41);
    nc.rep_threat = Some(29);
    nc.is_abuser = Some(true);
    nc.ai_verdict = Some(ipano::model::AiVerdict {
        label: "Suspicious".into(), confidence: 60, reasoning: "x".into(),
    });
    let m = merge(ip, vec![("netcoffee".to_string(), Ok(nc))]);
    assert_eq!(m.trust_score, Some(41));
    assert_eq!(m.rep_threat, Some(29));
    assert_eq!(m.is_abuser, Some(true));
    assert_eq!(m.ai_verdict.as_ref().unwrap().confidence, 60);
}
