use ipano::numtext::lead_f64;
use ipano::sources::ipapiis::parse;

const SAMPLE: &str = r#"{"is_datacenter":true,"is_vpn":false,"is_proxy":false,"is_abuser":false,"asn":{"asn":13335,"abuser_score":"0.0131 (Elevated)","org":"Cloudflare"},"company":{"type":"hosting","abuser_score":"0.015 (Elevated)"}}"#;

#[test]
fn parse_extracts_abuse_scores() {
    let d = parse(SAMPLE).unwrap();
    assert_eq!(d.source_id, "ipapiis");
    assert_eq!(d.asn, Some(13335));
    assert_eq!(d.asn_abuse_score.as_deref(), Some("0.0131"));
    assert_eq!(d.company_abuse_score.as_deref(), Some("0.015"));
    assert_eq!(d.company_type.as_deref(), Some("hosting"));
    assert_eq!(d.is_datacenter, Some(true));
}

#[test]
fn lead_f64_parses() { assert_eq!(lead_f64("0.0131 (Elevated)").as_deref(), Some("0.0131")); assert_eq!(lead_f64("x"), None); }
