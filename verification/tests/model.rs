use ipano::model::{AiVerdict, SourceData};

#[test]
fn sourcedata_default_is_empty() {
    let d = SourceData::new("ipapi");
    assert_eq!(d.source_id, "ipapi");
    assert!(d.asn.is_none());
    assert!(d.country.is_none());
}

#[test]
fn sourcedata_has_risk_fields() {
    let mut d = SourceData::new("netcoffee");
    d.trust_score = Some(41);
    d.risk_score = Some(80);
    d.rep_threat = Some(29);
    d.abuser_score = Some("0.0234 (Elevated)".into());
    d.is_abuser = Some(true);
    d.ai_verdict = Some(AiVerdict {
        label: "Suspicious".into(), confidence: 60,
        reasoning: "Mid-low trust score".into(),
    });
    assert_eq!(d.trust_score, Some(41));
    assert_eq!(d.ai_verdict.as_ref().unwrap().confidence, 60);
}

#[test]
fn sourcedata_has_quality_fields() {
    let mut d = SourceData::new("ipapiis");
    d.usage_type = Some("hosting".into());
    d.company_type = Some("hosting".into());
    d.asn_abuse_score = Some("0.0131".to_string());
    d.company_abuse_score = Some("0.015".to_string());
    d.is_datacenter = Some(true);
    assert_eq!(d.usage_type.as_deref(), Some("hosting"));
    assert_eq!(d.asn_abuse_score.as_deref(), Some("0.0131"));
    assert_eq!(d.is_datacenter, Some(true));
}

#[test]
fn sourcedata_has_phase2_fields() {
    let mut d = SourceData::new("vt");
    d.threat_level = Some("high".into());
    d.human_traffic_pct = Some("78.5".to_string());
    d.bot_traffic_pct = Some("21.5".to_string());
    d.browser_dist = Some("Chrome 64% 其他 36%".into());
    d.device_dist = Some("desktop 70% mobile 30%".into());
    d.os_dist = Some("Windows 55% Android 25%".into());
    d.is_cloud = Some(true);
    d.is_relay = Some(false);
    d.is_anonymous = Some(false);
    d.is_bogon = Some(false);
    d.blacklist_harmless = Some(80);
    d.blacklist_malicious = Some(2);
    d.blacklist_suspicious = Some(1);
    d.blacklist_undetected = Some(11);
    assert_eq!(d.threat_level.as_deref(), Some("high"));
    assert_eq!(d.human_traffic_pct.as_deref(), Some("78.5"));
    assert_eq!(d.is_cloud, Some(true));
    assert_eq!(d.blacklist_malicious, Some(2));
}
