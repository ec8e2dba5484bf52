use ipano::sources::scamalytics::parse;

const SAMPLE: &str = r#"{"scamalytics":{"status":"ok","scamalytics_score":18,"scamalytics_risk":"low",
"scamalytics_proxy":{"is_vpn":false,"is_tor":false,"is_datacenter":true,"is_anonymous":false}}}"#;

#[test]
fn parse_extracts_score_and_risk() {
    let d = parse(SAMPLE).unwrap();
    assert_eq!(d.source_id, "scam");
    assert_eq!(d.fraud_score, Some(18));
    assert_eq!(d.threat_level.as_deref(), Some("low"));
    assert_eq!(d.is_datacenter, Some(true));
    assert_eq!(d.is_vpn, Some(false));
    assert_eq!(d.is_tor, Some(false));
    assert_eq!(d.is_anonymous, Some(false));
}
