use ipano::sources::ipqs::parse;

const SAMPLE: &str = r#"{"success":true,"message":"Success","fraud_score":75,
    "country_code":"US","region":"California","city":"Los Angeles","ISP":"Cloudflare",
    "ASN":13335,"organization":"Cloudflare, Inc.","proxy":true,"vpn":true,"tor":false,
    "is_crawler":false,"mobile":false,"recent_abuse":true}"#;

#[test]
fn parse_extracts_fraud_and_flags() {
    let d = parse(SAMPLE).unwrap();
    assert_eq!(d.source_id, "ipqs");
    assert_eq!(d.ipqs_score, Some(75));
    assert_eq!(d.asn, Some(13335));
    assert_eq!(d.is_proxy, Some(true));
    assert_eq!(d.is_vpn, Some(true));
    assert_eq!(d.is_tor, Some(false));
    assert_eq!(d.is_abuser, Some(true)); // recent_abuse
}

#[test]
fn parse_failure_is_err() {
    let body = r#"{"success":false,"message":"Invalid or expired key."}"#;
    assert!(parse(body).is_err());
}
