use ipano::sources::abuseipdb::parse;

const SAMPLE: &str = r#"{"data":{"ipAddress":"1.1.1.1","isPublic":true,
    "abuseConfidenceScore":17,"countryCode":"AU","usageType":"Content Delivery Network",
    "isp":"Cloudflare, Inc.","domain":"cloudflare.com","totalReports":3,"numDistinctUsers":2}}"#;

#[test]
fn parse_extracts_confidence() {
    let d = parse(SAMPLE).unwrap();
    assert_eq!(d.source_id, "abuseipdb");
    assert_eq!(d.abuseipdb_score, Some(17));
    assert_eq!(d.country.as_deref(), Some("AU"));
    assert_eq!(d.isp.as_deref(), Some("Cloudflare, Inc."));
    assert_eq!(d.is_abuser, Some(true)); // totalReports=3 > 0
}

#[test]
fn parse_no_reports_not_abuser() {
    let body = r#"{"data":{"abuseConfidenceScore":0,"totalReports":0}}"#;
    let d = parse(body).unwrap();
    assert_eq!(d.abuseipdb_score, Some(0));
    assert_eq!(d.is_abuser, Some(false));
}
